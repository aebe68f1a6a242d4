//! The computable parts of volume acquisition: the path strings handed
//! to the platform when a volume is opened, and the cleanup of the
//! volume name the platform hands back.

use vstd::prelude::*;
use vstd::string::*;
use crate::text::{utf16_lossy, utf16_lossy_chars, chars_to_string};

verus! {

/// The device path under which a volume is opened by drive letter.
pub open spec fn drive_root_of(d: char) -> Seq<char> {
    seq!['\\', '\\', '.', '\\', d, ':']
}

/// Builds the device path under which the volume with drive letter `d`
/// is opened.
pub fn volume_root_for_drive(d: char) -> (r: String)
    ensures
        r@ == drive_root_of(d),
{
    let mut out: Vec<char> = Vec::new();
    out.push('\\');
    out.push('\\');
    out.push('.');
    out.push('\\');
    out.push(d);
    out.push(':');
    proof {
        assert(out@ =~= drive_root_of(d));
    }
    chars_to_string(out)
}

/// Builds the mount-point path handed to the platform's volume-name
/// query, which requires a trailing separator.
pub fn mount_point_query_path(mount_point: &str) -> (r: String)
    ensures
        r@ == mount_point@ + "\\"@,
{
    let mut out = mount_point.to_owned();
    out.append("\\");
    out
}

/// The code units before the first terminator of a wide string.
pub open spec fn wide_prefix_to_nul(u: Seq<u16>) -> Seq<u16>
    decreases u.len(),
{
    if u.len() == 0 {
        u
    } else if u[0] == 0 {
        Seq::<u16>::empty()
    } else {
        seq![u[0]] + wide_prefix_to_nul(u.skip(1))
    }
}

/// A path with every trailing separator removed.
pub open spec fn trim_trailing_backslashes(s: Seq<char>) -> Seq<char>
    decreases s.len(),
{
    if s.len() > 0 && s.last() == '\\' {
        trim_trailing_backslashes(s.drop_last())
    } else {
        s
    }
}

/// Before any terminator, the wide string is its own prefix.
proof fn lemma_wide_prefix_split(u: Seq<u16>, i: int)
    requires
        0 <= i <= u.len(),
        forall|j: int| 0 <= j < i ==> u[j] != 0,
    ensures
        wide_prefix_to_nul(u) == u.take(i) + wide_prefix_to_nul(u.skip(i)),
    decreases i,
{
    if i == 0 {
        assert(u.take(0) + wide_prefix_to_nul(u.skip(0)) =~= wide_prefix_to_nul(u.skip(0)));
        assert(u.skip(0) =~= u);
    } else {
        assert(u.len() > 0 && u[0] != 0);
        lemma_wide_prefix_split(u.skip(1), i - 1);
        assert(u.skip(1).take(i - 1) =~= u.take(i).skip(1));
        assert(u.skip(1).skip(i - 1) =~= u.skip(i));
        assert(seq![u[0]] + (u.skip(1).take(i - 1) + wide_prefix_to_nul(u.skip(i))) =~= u.take(i)
            + wide_prefix_to_nul(u.skip(i)));
    }
}

/// Extracts the volume name the platform wrote into a wide buffer: the
/// characters before the first terminator, with trailing separators
/// removed, as the platform's volume-open call requires.
pub fn volume_guid_path(units: &[u16]) -> (r: String)
    ensures
        r@ == trim_trailing_backslashes(utf16_lossy(wide_prefix_to_nul(units@))),
{
    let n = units.len();
    let mut prefix: Vec<u16> = Vec::new();
    let mut i: usize = 0;
    while i < n && units[i] != 0
        invariant
            i <= n,
            n == units@.len(),
            forall|j: int| 0 <= j < i ==> units@[j] != 0,
            prefix@ == units@.take(i as int),
        decreases n - i,
    {
        prefix.push(units[i]);
        proof {
            assert(prefix@ =~= units@.take(i as int + 1));
        }
        i = i + 1;
    }
    proof {
        lemma_wide_prefix_split(units@, i as int);
        if i < n {
            assert(units@.skip(i as int)[0] == units@[i as int]);
            assert(wide_prefix_to_nul(units@.skip(i as int)) =~= Seq::<u16>::empty());
        } else {
            assert(units@.skip(i as int) =~= Seq::<u16>::empty());
        }
        assert(prefix@ =~= wide_prefix_to_nul(units@));
    }
    let mut chars = utf16_lossy_chars(prefix.as_slice());
    while chars.len() > 0 && chars[chars.len() - 1] == '\\'
        invariant
            trim_trailing_backslashes(chars@) == trim_trailing_backslashes(
                utf16_lossy(wide_prefix_to_nul(units@)),
            ),
        decreases chars@.len(),
    {
        let _ = chars.pop();
    }
    proof {
        assert(trim_trailing_backslashes(chars@) == chars@);
    }
    chars_to_string(chars)
}

} // verus!
