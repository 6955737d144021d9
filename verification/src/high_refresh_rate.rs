//! Finding the frame-rate cap among a web view's preference keys.
//!
//! The platform exposes a list of experimental/debug preference features,
//! each named by a key; one of them caps page rendering near 60 frames per
//! second and can be disabled to unlock the display's native refresh rate.
//! Walking the platform's feature list and flipping the switch are platform
//! calls of the host; recognizing the key — it carries a `60FPS` or `60fps`
//! marker, as in `PreferPageRenderingUpdatesNear60FPSEnabled` — and picking
//! the first such key are decided and verified here.

use vstd::prelude::*;

verus! {

/// `needle` occurs contiguously somewhere in `hay`.
pub open spec fn contains_seq(hay: Seq<u8>, needle: Seq<u8>) -> bool {
    exists|i: int|
        0 <= i && i + needle.len() <= hay.len() && #[trigger] hay.subrange(i, i + needle.len())
            == needle
}

/// The marker `60FPS`, as bytes.
pub open spec fn marker_upper() -> Seq<u8> {
    seq![54u8, 48u8, 70u8, 80u8, 83u8]
}

/// The marker `60fps`, as bytes.
pub open spec fn marker_lower() -> Seq<u8> {
    seq![54u8, 48u8, 102u8, 112u8, 115u8]
}

/// A preference key names the frame-rate cap when it carries either marker.
/// (The full preference name carries the upper-case marker itself.)
pub open spec fn spec_is_frame_rate_cap_key(key: Seq<u8>) -> bool {
    contains_seq(key, marker_upper()) || contains_seq(key, marker_lower())
}

/// Whether `needle` matches `hay` exactly at position `at`.
fn match_at(hay: &[u8], needle: &[u8], at: usize) -> (r: bool)
    requires
        at + needle@.len() <= hay@.len(),
    ensures
        r == (hay@.subrange(at as int, at as int + needle@.len() as int) == needle@),
{
    let n = hay.len();
    let m = needle.len();
    let mut j: usize = 0;
    while j < m
        invariant
            m == needle@.len(),
            n == hay@.len(),
            at + m <= n,
            j <= m,
            forall|l: int| 0 <= l < j ==> hay@[at + l] == needle@[l],
        decreases m - j,
    {
        if hay[at + j] != needle[j] {
            proof {
                assert(hay@.subrange(at as int, at as int + m as int)[j as int] != needle@[
                    j as int
                ]);
            }
            return false;
        }
        j = j + 1;
    }
    proof {
        assert(hay@.subrange(at as int, at as int + m as int) =~= needle@);
    }
    true
}

/// Verified substring search: whether `needle` occurs anywhere in `hay`.
fn contains_bytes(hay: &[u8], needle: &[u8]) -> (r: bool)
    ensures
        r == contains_seq(hay@, needle@),
{
    let n = hay.len();
    let m = needle.len();
    if m > n {
        return false;
    }
    if m == 0 {
        proof {
            assert(hay@.subrange(0, 0 + needle@.len() as int) =~= needle@);
        }
        return true;
    }
    let mut i: usize = 0;
    while i <= n - m
        invariant
            1 <= m <= n,
            n == hay@.len(),
            m == needle@.len(),
            i <= n - m + 1,
            forall|k: int| 0 <= k < i ==> #[trigger] hay@.subrange(k, k + m as int) != needle@,
        decreases n - i,
    {
        if match_at(hay, needle, i) {
            return true;
        }
        i = i + 1;
    }
    proof {
        assert forall|k: int| 0 <= k && k + m <= n implies #[trigger] hay@.subrange(
            k,
            k + m as int,
        ) != needle@ by {
            assert(k < i);
        }
    }
    false
}

/// Whether a preference key names the frame-rate cap.
pub fn is_frame_rate_cap_key(key: &[u8]) -> (r: bool)
    ensures
        r == spec_is_frame_rate_cap_key(key@),
{
    let upper: Vec<u8> = vec![54u8, 48u8, 70u8, 80u8, 83u8];
    let lower: Vec<u8> = vec![54u8, 48u8, 102u8, 112u8, 115u8];
    proof {
        assert(upper@ =~= marker_upper());
        assert(lower@ =~= marker_lower());
    }
    contains_bytes(key, upper.as_slice()) || contains_bytes(key, lower.as_slice())
}

/// Picks the first preference key that names the frame-rate cap — the one
/// the host should disable — or nothing when no key in the list does.
pub fn find_frame_rate_feature(keys: &Vec<Vec<u8>>) -> (r: Option<usize>)
    ensures
        match r {
            Some(i) => i < keys@.len() && spec_is_frame_rate_cap_key(keys@[i as int]@) && (forall|
                j: int,
            |
                0 <= j < i ==> !spec_is_frame_rate_cap_key(#[trigger] keys@[j]@)),
            None => forall|j: int|
                0 <= j < keys@.len() ==> !spec_is_frame_rate_cap_key(#[trigger] keys@[j]@),
        },
{
    let mut i: usize = 0;
    while i < keys.len()
        invariant
            i <= keys@.len(),
            forall|j: int| 0 <= j < i ==> !spec_is_frame_rate_cap_key(#[trigger] keys@[j]@),
        decreases keys@.len() - i,
    {
        if is_frame_rate_cap_key(keys[i].as_slice()) {
            return Some(i);
        }
        i = i + 1;
    }
    None
}

} // verus!
