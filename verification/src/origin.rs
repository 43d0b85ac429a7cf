//! Origin admission policy.
//!
//! An allow-list is a comma-separated string of entries. An absent allow-list
//! admits every origin; the literal `*` admits every origin; an entry of the
//! form `https://*.suffix` admits any origin that starts with `https://` and
//! ends with `suffix` (a coarse suffix match, with no label-boundary check);
//! any other entry admits only the identical origin.

use vstd::prelude::*;
use crate::bytes::has_prefix;
use crate::bytes::is_prefix_of;
use crate::bytes::is_suffix_of;
use crate::bytes::range_eq;

verus! {

/// The byte `,`.
pub const COMMA: u8 = 44;

/// The byte `*`.
pub const STAR: u8 = 42;

/// The byte `.`.
pub const DOT: u8 = 46;

/// The allow-list literal `*`.
pub open spec fn star() -> Seq<u8> {
    seq![STAR]
}

/// The scheme prefix `https://`.
pub open spec fn https_prefix() -> Seq<u8> {
    seq![104u8, 116, 116, 112, 115, 58, 47, 47]
}

/// The wildcard entry prefix `https://*.`.
pub open spec fn wildcard_prefix() -> Seq<u8> {
    https_prefix() + seq![STAR, DOT]
}

/// One allow-list entry admits an origin: a wildcard entry `https://*.suffix`
/// admits origins that start with `https://` and end with `suffix`; any other
/// entry admits only the identical origin.
pub open spec fn entry_admits(entry: Seq<u8>, origin: Seq<u8>) -> bool {
    if is_prefix_of(wildcard_prefix(), entry) {
        is_prefix_of(https_prefix(), origin) && is_suffix_of(entry.skip(10), origin)
    } else {
        origin == entry
    }
}

/// `[i, j)` bounds one comma-separated entry of `a`: it is delimited by the
/// start of the string or a comma on the left, by the end of the string or a
/// comma on the right, and holds no comma itself.
pub open spec fn is_entry_range(a: Seq<u8>, i: int, j: int) -> bool {
    &&& 0 <= i <= j <= a.len()
    &&& (i == 0 || a[i - 1] == COMMA)
    &&& (j == a.len() || a[j] == COMMA)
    &&& forall|k: int| i <= k < j ==> a[k] != COMMA
}

/// The allow-list `a` admits `origin`: either `a` is the literal `*`, or some
/// comma-separated entry of `a` admits `origin`.
pub open spec fn list_admits(a: Seq<u8>, origin: Seq<u8>) -> bool {
    ||| a == star()
    ||| exists|i: int, j: int|
        #[trigger] is_entry_range(a, i, j) && entry_admits(a.subrange(i, j), origin)
}

/// An origin is admitted when no allow-list is configured, or when the
/// configured allow-list admits it.
pub open spec fn origin_allowed(allow: Option<Seq<u8>>, origin: Seq<u8>) -> bool {
    match allow {
        None => true,
        Some(a) => list_admits(a, origin),
    }
}

/// The view of an optional byte string.
pub open spec fn view_opt(o: &Option<Vec<u8>>) -> Option<Seq<u8>> {
    match o {
        Some(v) => Some(v@),
        None => None,
    }
}

pub(crate) fn https_prefix_vec() -> (v: Vec<u8>)
    ensures
        v@ == https_prefix(),
{
    let mut v: Vec<u8> = Vec::new();
    v.push(104);
    v.push(116);
    v.push(116);
    v.push(112);
    v.push(115);
    v.push(58);
    v.push(47);
    v.push(47);
    proof {
        assert(v@ =~= https_prefix());
    }
    v
}

fn wildcard_prefix_vec() -> (v: Vec<u8>)
    ensures
        v@ == wildcard_prefix(),
{
    let mut v = https_prefix_vec();
    v.push(STAR);
    v.push(DOT);
    proof {
        assert(v@ =~= wildcard_prefix());
    }
    v
}

/// In a string whose run `[start, end)` is comma-free and delimited on both
/// sides, the only entry range ending inside `[start, end]` is `[start, end)`
/// itself.
proof fn lemma_entry_range_pinned(a: Seq<u8>, start: int, end: int, i: int, j: int)
    requires
        0 <= start <= end <= a.len(),
        start == 0 || a[start - 1] == COMMA,
        forall|k: int| start <= k < end ==> a[k] != COMMA,
        end == a.len() || a[end] == COMMA,
        is_entry_range(a, i, j),
        start <= j <= end,
    ensures
        i == start,
        j == end,
{
    if j < end {
        assert(a[j] != COMMA);
        assert(false);
    }
    if i > start {
        assert(a[i - 1] != COMMA);
        assert(false);
    }
    if i < start {
        assert(a[start - 1] != COMMA);
        assert(false);
    }
}

/// Matches the entry `allow[from..to]` against `origin`.
fn entry_matches(allow: &Vec<u8>, from: usize, to: usize, origin: &Vec<u8>) -> (r: bool)
    requires
        from <= to <= allow@.len(),
    ensures
        r == entry_admits(allow@.subrange(from as int, to as int), origin@),
{
    let ghost entry = allow@.subrange(from as int, to as int);
    let entry_len = to - from;
    let wp = wildcard_prefix_vec();
    let is_wild = if entry_len >= 10 {
        range_eq(allow, from, &wp, 0, 10)
    } else {
        false
    };
    proof {
        if entry_len >= 10 {
            assert(entry.subrange(0, 10) =~= allow@.subrange(from as int, from + 10));
            assert(wp@.subrange(0, 10) =~= wildcard_prefix());
        }
        assert(is_wild == is_prefix_of(wildcard_prefix(), entry));
    }
    if is_wild {
        let hp = https_prefix_vec();
        if !has_prefix(origin, &hp) {
            return false;
        }
        let suffix_len = entry_len - 10;
        if origin.len() < suffix_len {
            proof {
                assert(entry.skip(10).len() == suffix_len);
            }
            return false;
        }
        let r = range_eq(origin, origin.len() - suffix_len, allow, from + 10, suffix_len);
        proof {
            assert(entry.skip(10) =~= allow@.subrange(from + 10, to as int));
            assert(origin@.subrange(
                origin@.len() - suffix_len,
                origin@.len() as int,
            ) == origin@.subrange(origin@.len() - suffix_len, (origin@.len() - suffix_len)
                + suffix_len));
        }
        r
    } else {
        if origin.len() != entry_len {
            return false;
        }
        let r = range_eq(origin, 0, allow, from, entry_len);
        proof {
            assert(origin@.subrange(0, origin@.len() as int) =~= origin@);
        }
        r
    }
}

/// Whether the allow-list `allow` admits `origin`, scanning the
/// comma-separated entries in order.
fn list_matches(allow: &Vec<u8>, origin: &Vec<u8>) -> (r: bool)
    ensures
        r == list_admits(allow@, origin@),
{
    if allow.len() == 1 && allow[0] == STAR {
        proof {
            assert(allow@ =~= star());
        }
        return true;
    }
    proof {
        assert(allow@ != star()) by {
            if allow@ == star() {
                assert(allow@.len() == 1 && allow@[0] == STAR);
            }
        }
    }
    let n = allow.len();
    let mut start: usize = 0;
    loop
        invariant
            0 <= start <= n,
            n == allow@.len(),
            start == 0 || allow@[start - 1] == COMMA,
            allow@ != star(),
            forall|i: int, j: int|
                #[trigger] is_entry_range(allow@, i, j) && j < start ==> !entry_admits(
                    allow@.subrange(i, j),
                    origin@,
                ),
        decreases n - start,
    {
        let mut end: usize = start;
        while end < n && allow[end] != COMMA
            invariant
                start <= end <= n,
                n == allow@.len(),
                forall|k: int| start <= k < end ==> allow@[k] != COMMA,
            decreases n - end,
        {
            end = end + 1;
        }
        proof {
            assert(is_entry_range(allow@, start as int, end as int));
        }
        if entry_matches(allow, start, end, origin) {
            return true;
        }
        if end == n {
            proof {
                assert forall|i: int, j: int|
                    #[trigger] is_entry_range(allow@, i, j) implies !entry_admits(
                    allow@.subrange(i, j),
                    origin@,
                ) by {
                    if j < start {
                    } else {
                        lemma_entry_range_pinned(allow@, start as int, end as int, i, j);
                    }
                }
            }
            return false;
        }
        proof {
            assert forall|i: int, j: int|
                #[trigger] is_entry_range(allow@, i, j) && j < start + 1 implies !entry_admits(
                allow@.subrange(i, j),
                origin@,
            ) by {
                if j < start {
                } else {
                    lemma_entry_range_pinned(allow@, start as int, end as int, i, j);
                }
            }
        }
        start = end + 1;
    }
}

/// Decides whether a declared origin is admitted under the configured
/// allow-list, exactly as `origin_allowed` states it.
pub fn is_origin_allowed(allow: &Option<Vec<u8>>, origin: &Vec<u8>) -> (r: bool)
    ensures
        r == origin_allowed(view_opt(allow), origin@),
{
    match allow {
        None => true,
        Some(a) => list_matches(a, origin),
    }
}

/// With no allow-list configured, every origin is admitted.
pub proof fn lemma_unset_allow_list_admits_all(origin: Seq<u8>)
    ensures
        origin_allowed(None, origin),
{
}

/// The allow-list literal `*` admits every origin.
pub proof fn lemma_star_admits_all(origin: Seq<u8>)
    ensures
        origin_allowed(Some(star()), origin),
{
}

/// An entry without the wildcard prefix admits exactly the identical origin.
pub proof fn lemma_exact_entry_admits_only_itself(entry: Seq<u8>, origin: Seq<u8>)
    requires
        !is_prefix_of(wildcard_prefix(), entry),
    ensures
        entry_admits(entry, origin) <==> origin == entry,
{
}

/// A wildcard entry `https://*.` followed by `suffix` admits exactly the
/// origins that start with `https://` and end with `suffix`.
pub proof fn lemma_wildcard_entry(suffix: Seq<u8>, origin: Seq<u8>)
    ensures
        entry_admits(wildcard_prefix() + suffix, origin) <==> (is_prefix_of(
            https_prefix(),
            origin,
        ) && is_suffix_of(suffix, origin)),
{
    let entry = wildcard_prefix() + suffix;
    assert(is_prefix_of(wildcard_prefix(), entry)) by {
        assert(entry.subrange(0, 10) =~= wildcard_prefix());
    }
    assert(entry.skip(10) =~= suffix);
}

} // verus!
