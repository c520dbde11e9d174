//! Interpretation of raw setting values (as read from the environment or a config file):
//! trimming, flags, numbers and account lists.
use vstd::prelude::*;
use crate::text::{
    chars_of, decimal_text, is_digit, law_decimal_text_parses_back, lemma_decimal_text, lemma_trim_padded,
    lower_eq_lit, lower_seq, parse_u64, spec_parse_u64, trim, trim_seq,
};

verus! {

/// The view of an optional string slice.
pub open spec fn opt_str(o: Option<&str>) -> Option<Seq<char>> {
    match o {
        Some(s) => Some(s@),
        None => None,
    }
}

/// The view of an optional string.
pub open spec fn opt_string(o: Option<String>) -> Option<Seq<char>> {
    match o {
        Some(s) => Some(s@),
        None => None,
    }
}

/// A raw value trimmed; an absent value or one that is only whitespace counts as unset.
pub open spec fn spec_env_string(raw: Option<Seq<char>>) -> Option<Seq<char>> {
    match raw {
        Some(v) => if trim_seq(v).len() == 0 {
            None
        } else {
            Some(trim_seq(v))
        },
        None => None,
    }
}

/// The words that switch a yes/no setting on (compared in ASCII lower case).
pub open spec fn is_yes_word(t: Seq<char>) -> bool {
    t == "1"@ || t == "true"@ || t == "yes"@ || t == "y"@
}

/// The words that switch a pause-style flag on (compared in ASCII lower case).
pub open spec fn is_truthy_word(t: Seq<char>) -> bool {
    t == "1"@ || t == "true"@ || t == "yes"@ || t == "on"@
}

/// A yes/no setting: unset keeps the default, any other value is on exactly when it is one
/// of the yes words.
pub open spec fn spec_env_bool(raw: Option<Seq<char>>, default: bool) -> bool {
    match spec_env_string(raw) {
        Some(v) => is_yes_word(lower_seq(v)),
        None => default,
    }
}

/// A pause-style flag: on exactly when set to one of the truthy words (after trimming).
pub open spec fn spec_env_truthy(raw: Option<Seq<char>>) -> bool {
    match raw {
        Some(v) => is_truthy_word(lower_seq(trim_seq(v))),
        None => false,
    }
}

/// Why a raw setting value was refused.
#[derive(Debug, Clone, Copy, PartialEq, Eq, Structural)]
pub enum ValueError {
    /// The value is not an unsigned 64-bit decimal number.
    NotU64,
}

/// A numeric setting: unset keeps the default, any other value must be a `u64`.
pub open spec fn spec_env_u64(raw: Option<Seq<char>>, default: u64) -> Result<u64, ValueError> {
    match spec_env_string(raw) {
        Some(v) => match spec_parse_u64(v) {
            Some(n) => Ok(n),
            None => Err(ValueError::NotU64),
        },
        None => Ok(default),
    }
}

/// A raw setting value, trimmed; `None` when absent or blank.
pub fn env_string(raw: Option<&str>) -> (r: Option<String>)
    ensures
        opt_string(r) == spec_env_string(opt_str(raw)),
{
    match raw {
        Some(v) => {
            let t = trim(v);
            if t.as_str().is_empty() {
                None
            } else {
                Some(t)
            }
        },
        None => None,
    }
}

/// A yes/no setting with a default.
pub fn env_bool(raw: Option<&str>, default: bool) -> (r: bool)
    ensures
        r == spec_env_bool(opt_str(raw), default),
{
    match env_string(raw) {
        Some(v) => {
            let cs = chars_of(v.as_str());
            lower_eq_lit(&cs, "1") || lower_eq_lit(&cs, "true") || lower_eq_lit(&cs, "yes")
                || lower_eq_lit(&cs, "y")
        },
        None => default,
    }
}

/// A pause-style flag, off unless set to a truthy word.
pub fn env_truthy(raw: Option<&str>) -> (r: bool)
    ensures
        r == spec_env_truthy(opt_str(raw)),
{
    match raw {
        Some(v) => {
            let t = trim(v);
            let cs = chars_of(t.as_str());
            lower_eq_lit(&cs, "1") || lower_eq_lit(&cs, "true") || lower_eq_lit(&cs, "yes")
                || lower_eq_lit(&cs, "on")
        },
        None => false,
    }
}

/// A numeric setting with a default.
pub fn env_u64(raw: Option<&str>, default: u64) -> (r: Result<u64, ValueError>)
    ensures
        r == spec_env_u64(opt_str(raw), default),
{
    match env_string(raw) {
        Some(v) => match parse_u64(v.as_str()) {
            Some(n) => Ok(n),
            None => Err(ValueError::NotU64),
        },
        None => Ok(default),
    }
}

/// The first entry of `list` that is not blank, trimmed.
pub open spec fn spec_first_nonempty(list: Seq<String>) -> Option<Seq<char>>
    decreases list.len(),
{
    if list.len() == 0 {
        None
    } else if trim_seq(list[0]@).len() > 0 {
        Some(trim_seq(list[0]@))
    } else {
        spec_first_nonempty(list.drop_first())
    }
}

/// The first account of a configured list that is not blank (blank placeholders are
/// skipped), trimmed.
pub fn first_nonempty_account(list: &[String]) -> (r: Option<String>)
    ensures
        opt_string(r) == spec_first_nonempty(list@),
{
    let n = list.len();
    let mut i: usize = 0;
    assert(list@.subrange(0, n as int) =~= list@);
    while i < n
        invariant
            i <= n == list@.len(),
            spec_first_nonempty(list@) == spec_first_nonempty(list@.subrange(i as int, n as int)),
        decreases n - i,
    {
        assert(list@.subrange(i as int, n as int).drop_first() =~= list@.subrange(
            i + 1,
            n as int,
        ));
        let t = trim(list[i].as_str());
        if !t.as_str().is_empty() {
            return Some(t);
        }
        i = i + 1;
    }
    None
}

/// Law: a yes/no setting that is unset or blank keeps its default; `true` and `false`, in any
/// ASCII case and with any surrounding whitespace, switch it on and off whatever the default.
pub proof fn law_yes_no_setting(raw: Option<Seq<char>>, default: bool)
    ensures
        spec_env_string(raw) is None ==> spec_env_bool(raw, default) == default,
        raw matches Some(v) && lower_seq(trim_seq(v)) == "true"@ ==> spec_env_bool(raw, default),
        raw matches Some(v) && lower_seq(trim_seq(v)) == "false"@ ==> !spec_env_bool(raw, default),
{
    reveal_strlit("true");
    reveal_strlit("false");
    reveal_strlit("1");
    reveal_strlit("yes");
    reveal_strlit("y");
    assert("false"@.len() == 5 && "true"@.len() == 4 && "yes"@.len() == 3);
    assert("false"@[0] == 'f' && "y"@[0] == 'y' && "1"@[0] == '1');
}

/// Law: a numeric setting that is unset or blank keeps its default, and one set to the
/// decimal text of a number reads as that number.
pub proof fn law_numeric_setting(raw: Option<Seq<char>>, default: u64, n: u64)
    ensures
        spec_env_string(raw) is None ==> spec_env_u64(raw, default) == Ok::<u64, ValueError>(default),
        raw == Some(decimal_text(n as nat)) ==> spec_env_u64(raw, default) == Ok::<u64, ValueError>(n),
{
    if raw == Some(decimal_text(n as nat)) {
        let d = decimal_text(n as nat);
        law_decimal_text_parses_back(n);
        lemma_decimal_text(n as nat);
        assert(is_digit(d[0]));
        assert(is_digit(d[d.len() - 1]));
        let e = Seq::<char>::empty();
        assert(e + d + e =~= d);
        lemma_trim_padded(e, d, e);
    }
}

} // verus!
