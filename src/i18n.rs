use vstd::prelude::*;
use vstd::string::StringExecFns;

verus! {

/// `s` with every match of `pat` replaced by `rep`, matches taken left to right without
/// overlap.
pub open spec fn replace_all(s: Seq<char>, pat: Seq<char>, rep: Seq<char>) -> Seq<char>
    decreases s.len(),
{
    if pat.len() == 0 || s.len() < pat.len() {
        s
    } else if s.take(pat.len() as int) == pat {
        rep + replace_all(s.skip(pat.len() as int), pat, rep)
    } else {
        seq![s[0]] + replace_all(s.skip(1), pat, rep)
    }
}

/// The character of a decimal digit.
pub open spec fn digit_char(d: nat) -> char {
    if d == 0 {
        '0'
    } else if d == 1 {
        '1'
    } else if d == 2 {
        '2'
    } else if d == 3 {
        '3'
    } else if d == 4 {
        '4'
    } else if d == 5 {
        '5'
    } else if d == 6 {
        '6'
    } else if d == 7 {
        '7'
    } else if d == 8 {
        '8'
    } else {
        '9'
    }
}

/// The decimal digits of `n`, without leading zeros.
pub open spec fn decimal(n: nat) -> Seq<char>
    decreases n,
{
    if n < 10 {
        seq![digit_char(n)]
    } else {
        decimal(n / 10).push(digit_char(n % 10))
    }
}

/// The placeholder for argument `i` of a message: `{i}`.
pub open spec fn placeholder(i: nat) -> Seq<char> {
    seq!['{'] + decimal(i) + seq!['}']
}

/// The text of `key` in a table: the first entry with that key, or the key itself.
pub open spec fn lookup(texts: Seq<(Seq<char>, Seq<char>)>, key: Seq<char>) -> Seq<char>
    decreases texts.len(),
{
    if texts.len() == 0 {
        key
    } else if texts[0].0 == key {
        texts[0].1
    } else {
        lookup(texts.drop_first(), key)
    }
}

/// A message with its placeholders `{0}`, `{1}`, ... replaced by the arguments in turn.
pub open spec fn fill_args(s: Seq<char>, args: Seq<Seq<char>>) -> Seq<char>
    decreases args.len(),
{
    if args.len() == 0 {
        s
    } else {
        replace_all(fill_args(s, args.drop_last()), placeholder((args.len() - 1) as nat), args.last())
    }
}

/// The table used when no file of texts exists for a language.
pub open spec fn default_texts() -> Seq<(Seq<char>, Seq<char>)> {
    seq![("processing"@, "..."@), ("wait"@, "..."@)]
}

/// Relies on `str::replace`: every match of `from`, taken left to right without overlap,
/// replaced by `to`.
#[verifier::external_body]
fn replace_text(s: &str, from: &str, to: &str) -> (r: String)
    ensures
        from@.len() > 0 ==> r@ == replace_all(s@, from@, to@),
{
    s.replace(from, to)
}

/// The text of one decimal digit.
fn digit_text(d: usize) -> (r: &'static str)
    requires
        d < 10,
    ensures
        r@ == seq![digit_char(d as nat)],
{
    proof {
        reveal_strlit("0");
        reveal_strlit("1");
        reveal_strlit("2");
        reveal_strlit("3");
        reveal_strlit("4");
        reveal_strlit("5");
        reveal_strlit("6");
        reveal_strlit("7");
        reveal_strlit("8");
        reveal_strlit("9");
    }
    let r = if d == 0 {
        "0"
    } else if d == 1 {
        "1"
    } else if d == 2 {
        "2"
    } else if d == 3 {
        "3"
    } else if d == 4 {
        "4"
    } else if d == 5 {
        "5"
    } else if d == 6 {
        "6"
    } else if d == 7 {
        "7"
    } else if d == 8 {
        "8"
    } else {
        "9"
    };
    assert(r@ =~= seq![digit_char(d as nat)]);
    r
}

/// Appends the decimal digits of `n` to `s`.
fn push_decimal(s: &mut String, n: usize)
    ensures
        final(s)@ == old(s)@ + decimal(n as nat),
    decreases n,
{
    if n >= 10 {
        push_decimal(s, n / 10);
    }
    s.append(digit_text(n % 10));
    assert(n >= 10 ==> decimal(n as nat) == decimal((n / 10) as nat).push(digit_char((n % 10) as nat)));
    assert(final(s)@ =~= old(s)@ + decimal(n as nat));
}

/// The placeholder `{i}`.
fn placeholder_text(i: usize) -> (r: String)
    ensures
        r@ == placeholder(i as nat),
{
    proof {
        reveal_strlit("{");
        reveal_strlit("}");
    }
    let mut r = "{".to_owned();
    push_decimal(&mut r, i);
    r.append("}");
    assert(r@ =~= placeholder(i as nat));
    r
}

/// The user-facing texts of one language.
pub struct I18n {
    pub texts: Vec<(String, String)>,
    pub current_lang: String,
}

impl View for I18n {
    type V = Seq<(Seq<char>, Seq<char>)>;

    open spec fn view(&self) -> Seq<(Seq<char>, Seq<char>)> {
        self.texts@.map_values(|e: (String, String)| (e.0@, e.1@))
    }
}

impl I18n {
    /// The texts of `lang`, from the key/text pairs of its file, or a small built-in
    /// table where the language has no file.
    pub fn new(lang: &str, entries: Option<Vec<(String, String)>>) -> (r: I18n)
        ensures
            r.current_lang@ == lang@,
            r@ == match entries {
                Some(e) => e@.map_values(|p: (String, String)| (p.0@, p.1@)),
                None => default_texts(),
            },
    {
        let texts = match entries {
            Some(e) => e,
            None => {
                let mut d: Vec<(String, String)> = Vec::new();
                d.push(("processing".to_owned(), "...".to_owned()));
                d.push(("wait".to_owned(), "...".to_owned()));
                d
            },
        };
        let r = I18n { texts, current_lang: lang.to_owned() };
        assert(r@ =~= match entries {
            Some(e) => e@.map_values(|p: (String, String)| (p.0@, p.1@)),
            None => default_texts(),
        });
        r
    }

    /// The text of `key`, or `key` itself where no text has it.
    pub fn get(&self, key: &str) -> (r: String)
        ensures
            r@ == lookup(self@, key@),
    {
        let k = key.to_owned();
        let mut i: usize = 0;
        assert(self@.skip(0) =~= self@);
        while i < self.texts.len()
            invariant
                0 <= i <= self.texts.len(),
                k@ == key@,
                lookup(self@, key@) == lookup(self@.skip(i as int), key@),
            decreases self.texts.len() - i,
        {
            proof {
                assert(self@.skip(i as int).drop_first() =~= self@.skip(i + 1));
            }
            if self.texts[i].0 == k {
                return self.texts[i].1.clone();
            }
            i += 1;
        }
        k
    }

    /// The text of `key` with `{0}`, `{1}`, ... replaced by the arguments in turn.
    pub fn get_args(&self, key: &str, args: &[String]) -> (r: String)
        ensures
            r@ == fill_args(lookup(self@, key@), args@.map_values(|a: String| a@)),
    {
        let ghost views = args@.map_values(|a: String| a@);
        let mut s = self.get(key);
        let mut i: usize = 0;
        while i < args.len()
            invariant
                0 <= i <= args.len(),
                views == args@.map_values(|a: String| a@),
                s@ == fill_args(lookup(self@, key@), views.take(i as int)),
            decreases args.len() - i,
        {
            let p = placeholder_text(i);
            proof {
                assert(views.take(i + 1).drop_last() =~= views.take(i as int));
                assert(p@.len() > 0) by {
                    assert(p@[0] == '{');
                }
            }
            s = replace_text(s.as_str(), p.as_str(), args[i].as_str());
            i += 1;
        }
        proof {
            assert(views.take(i as int) =~= views);
        }
        s
    }
}

} // verus!
