//! Verified string utilities: equality and substring search on `&str`,
//! and the formatting helpers used for client-visible log lines.

use vstd::prelude::*;

verus! {

/// Exec equality of two string slices, settled character by character.
pub fn str_eq(a: &str, b: &str) -> (r: bool)
    ensures
        r == (a@ == b@),
{
    let alen = a.unicode_len();
    let blen = b.unicode_len();
    if alen != blen {
        return false;
    }
    let mut i: usize = 0;
    while i < alen
        invariant
            alen == a@.len(),
            alen == b@.len(),
            i <= alen,
            forall|j: int| 0 <= j < i ==> a@[j] == b@[j],
        decreases alen - i,
    {
        let ca = a.get_char(i);
        let cb = b.get_char(i);
        if ca != cb {
            return false;
        }
        i += 1;
    }
    proof {
        assert(a@ =~= b@);
    }
    true
}

/// Whether `needle` occurs as a contiguous run of characters inside `hay`.
pub open spec fn contains_seq(hay: Seq<char>, needle: Seq<char>) -> bool {
    exists|i: int|
        0 <= i && i + needle.len() <= hay.len() && #[trigger] hay.subrange(
            i,
            i + needle.len() as int,
        ) == needle
}

/// Substring search: whether `needle` occurs anywhere inside `hay`.
pub fn contains_str(hay: &str, needle: &str) -> (r: bool)
    ensures
        r == contains_seq(hay@, needle@),
{
    let hlen = hay.unicode_len();
    let nlen = needle.unicode_len();
    if nlen > hlen {
        proof {
            assert forall|i: int| !(0 <= i && i + needle@.len() <= hay@.len() && #[trigger] hay@
                .subrange(i, i + needle@.len() as int) == needle@) by {}
        }
        return false;
    }
    if nlen == 0 {
        proof {
            assert(0 <= 0 && 0 + needle@.len() <= hay@.len() && hay@.subrange(
                0,
                0 + needle@.len() as int,
            ) =~= needle@);
        }
        return true;
    }
    let mut i: usize = 0;
    while i <= hlen - nlen
        invariant
            0 < nlen <= hlen,
            hlen == hay@.len(),
            nlen == needle@.len(),
            i <= hlen - nlen + 1,
            forall|k: int|
                0 <= k < i ==> #[trigger] hay@.subrange(k, k + needle@.len() as int) != needle@,
        decreases hlen - nlen + 1 - i,
    {
        let sub = hay.substring_char(i, i + nlen);
        if str_eq(sub, needle) {
            proof {
                assert(0 <= i as int && i as int + needle@.len() <= hay@.len() && hay@.subrange(
                    i as int,
                    i as int + needle@.len() as int,
                ) == needle@);
            }
            return true;
        }
        i += 1;
    }
    proof {
        assert forall|k: int| !(0 <= k && k + needle@.len() <= hay@.len() && #[trigger] hay@
            .subrange(k, k + needle@.len() as int) == needle@) by {
            if 0 <= k && k + needle@.len() <= hay@.len() {
                assert(k < i);
            }
        }
    }
    false
}

/// The horizontal rule that frames section log lines.
pub open spec fn separator_text() -> Seq<char> {
    "-----------------------------------------------------------------------"@
}

/// A horizontal rule written to the client log between lifecycle phases.
pub fn separator() -> (r: String)
    ensures
        r@ == separator_text(),
{
    String::from_str("-----------------------------------------------------------------------")
}

/// The spec-level shape of a section: the message framed by rules.
pub open spec fn section_text(msg: Seq<char>) -> Seq<char> {
    separator_text() + "\n"@ + msg + "\n"@ + separator_text()
}

/// Frames a message between two horizontal rules for the client log.
pub fn as_section(msg: &str) -> (r: String)
    ensures
        r@ == section_text(msg@),
{
    separator().concat("\n").concat(msg).concat("\n").concat(separator().as_str())
}

/// The prefix put before error-severity lines in the client log.
pub open spec fn error_prefix() -> Seq<char> {
    "[Error] "@
}

/// Prefixes an error-severity line for the client log.
pub fn error_line(msg: &str) -> (r: String)
    ensures
        r@ == error_prefix() + msg@,
{
    String::from_str("[Error] ").concat(msg)
}

} // verus!
