use vstd::prelude::*;

verus! {

/// What `str::trim` leaves of a string.
pub uninterp spec fn trim_of(s: Seq<char>) -> Seq<char>;

/// What `str::to_lowercase` makes of a string.
pub uninterp spec fn lower_of(s: Seq<char>) -> Seq<char>;

/// Relies on `str::trim`: the string without its leading and trailing
/// whitespace, which depends on the characters alone.
#[verifier::external_body]
fn trimmed(s: &str) -> (r: &str)
    ensures
        r@ == trim_of(s@),
{
    s.trim()
}

/// Relies on `str::to_lowercase`: the lowercase form of the string, which
/// depends on the characters alone.
#[verifier::external_body]
fn lowercase(s: &str) -> (r: String)
    ensures
        r@ == lower_of(s@),
{
    s.to_lowercase()
}

/// The decision a normalized answer stands for: `Some(true)` to overwrite,
/// `Some(false)` to keep the file, `None` when the question must be asked again.
pub open spec fn answer_spec(a: Seq<char>) -> Option<bool> {
    if a == seq!['y'] || a == seq!['y', 'e', 's'] {
        Some(true)
    } else if a.len() == 0 || a == seq!['n'] || a == seq!['n', 'o'] {
        Some(false)
    } else {
        None
    }
}

/// Reads an answer that is already trimmed and in lower case.
pub fn answer_of(normalized: &str) -> (r: Option<bool>)
    ensures
        r == answer_spec(normalized@),
{
    let n = normalized.unicode_len();
    if n == 0 {
        return Some(false);
    }
    let c0 = normalized.get_char(0);
    if n == 1 {
        if c0 == 'y' {
            assert(normalized@ =~= seq!['y']);
            return Some(true);
        }
        if c0 == 'n' {
            assert(normalized@ =~= seq!['n']);
            return Some(false);
        }
        assert(normalized@ != seq!['y'] && normalized@ != seq!['n']);
        return None;
    }
    let c1 = normalized.get_char(1);
    if n == 2 {
        if c0 == 'n' && c1 == 'o' {
            assert(normalized@ =~= seq!['n', 'o']);
            return Some(false);
        }
        assert(normalized@ != seq!['n', 'o'] && normalized@[1] == c1);
        return None;
    }
    if n == 3 {
        let c2 = normalized.get_char(2);
        if c0 == 'y' && c1 == 'e' && c2 == 's' {
            assert(normalized@ =~= seq!['y', 'e', 's']);
            return Some(true);
        }
        assert(normalized@[2] == c2);
        return None;
    }
    None
}

/// Reads one line typed in answer to an overwrite question: surrounding
/// whitespace is dropped and case is ignored.
pub fn parse_answer(line: &str) -> (r: Option<bool>)
    ensures
        r == answer_spec(lower_of(trim_of(line@))),
{
    let t = trimmed(line);
    let l = lowercase(t);
    answer_of(l.as_str())
}

} // verus!
