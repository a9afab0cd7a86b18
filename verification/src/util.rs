//! Small shared helpers: range coercions and list truncation.

use vstd::prelude::*;

use crate::error::PtyError;

verus! {

/// Coerces a 32-bit value into the signed 16-bit range used for terminal
/// coordinates, failing with a coercion error before any OS call is made.
pub fn coerce_i16(inval: i32) -> (r: Result<i16, PtyError>)
    ensures
        r == if i16::MIN <= inval <= i16::MAX {
            Ok::<i16, PtyError>(inval as i16)
        } else {
            Err::<i16, PtyError>(PtyError::Coercion(inval))
        },
{
    if i16::MIN as i32 <= inval && inval <= i16::MAX as i32 {
        Ok(inval as i16)
    } else {
        Err(PtyError::Coercion(inval))
    }
}

/// Coerces a 32-bit value into a window dimension: nonnegative and within
/// the signed 16-bit range, carried as the unsigned 16-bit cell count that
/// the window-size structure stores.
pub fn coerce_dim(inval: i32) -> (r: Result<u16, PtyError>)
    ensures
        r == if 0 <= inval <= i16::MAX {
            Ok::<u16, PtyError>(inval as u16)
        } else {
            Err::<u16, PtyError>(PtyError::Coercion(inval))
        },
{
    if 0 <= inval && inval <= i16::MAX as i32 {
        Ok(inval as u16)
    } else {
        Err(PtyError::Coercion(inval))
    }
}

/// One `KEY=VALUE` environment entry, closed by a NUL separator.
pub open spec fn spec_env_entry(k: Seq<char>, v: Seq<char>) -> Seq<char> {
    k + seq!['='] + v + seq!['\0']
}

/// The concatenation of all entries of the block, each NUL-terminated.
pub open spec fn spec_env_entries(entries: Seq<(Seq<char>, Seq<char>)>) -> Seq<char>
    decreases entries.len(),
{
    if entries.len() == 0 {
        Seq::empty()
    } else {
        spec_env_entries(entries.drop_last()) + spec_env_entry(
            entries.last().0,
            entries.last().1,
        )
    }
}

/// A process environment block: every `KEY=VALUE` entry followed by a NUL
/// separator, and one more NUL closing the block, so that the block always
/// ends in a double NUL — an empty block is two bare NULs, as process
/// creation requires.
pub open spec fn spec_env_block(entries: Seq<(Seq<char>, Seq<char>)>) -> Seq<char> {
    if entries.len() == 0 {
        seq!['\0', '\0']
    } else {
        spec_env_entries(entries) + seq!['\0']
    }
}

/// Builds the environment block handed to process creation: the entries in
/// the order given, each as `KEY=VALUE` with a NUL separator, the whole
/// block closed by a final NUL and so always double-NUL-terminated.
pub fn env_block(entries: &Vec<(String, String)>) -> (r: String)
    ensures
        r@ == spec_env_block(entries.deep_view()),
{
    let ghost all = entries.deep_view();
    let mut out = String::new();
    let mut i: usize = 0;
    while i < entries.len()
        invariant
            i <= entries@.len(),
            all == entries.deep_view(),
            all.len() == entries@.len(),
            forall|j: int|
                0 <= j < entries@.len() ==> all[j] == (entries@[j].0@, entries@[j].1@),
            out@ == spec_env_entries(all.take(i as int)),
        decreases entries@.len() - i,
    {
        let entry = &entries[i];
        out.append(entry.0.as_str());
        out.append("=");
        out.append(entry.1.as_str());
        out.append("\u{0}");
        proof {
            reveal_strlit("=");
            reveal_strlit("\u{0}");
            assert(all.take(i + 1 as int).drop_last() =~= all.take(i as int));
            assert(out@ =~= spec_env_entries(all.take(i + 1 as int)));
        }
        i = i + 1;
    }
    if entries.len() == 0 {
        out.append("\u{0}");
    }
    out.append("\u{0}");
    proof {
        reveal_strlit("\u{0}");
        assert(all.take(all.len() as int) =~= all);
        assert(out@ =~= spec_env_block(all));
    }
    out
}

/// Returns the first `count` elements of `list`, or all of them when
/// `count` exceeds the length.  Process-list queries fill a fixed-size
/// buffer and report how many entries are meaningful; this takes that
/// prefix.
pub fn take_prefix<T: Copy>(list: &Vec<T>, count: usize) -> (r: Vec<T>)
    ensures
        r@ == list@.take(if count <= list@.len() {
            count as int
        } else {
            list@.len() as int
        }),
{
    let n: usize = if count <= list.len() {
        count
    } else {
        list.len()
    };
    let mut r: Vec<T> = Vec::new();
    let mut i: usize = 0;
    while i < n
        invariant
            i <= n <= list@.len(),
            r@ == list@.take(i as int),
        decreases n - i,
    {
        r.push(list[i]);
        proof {
            assert(r@ =~= list@.take(i + 1 as int));
        }
        i = i + 1;
    }
    r
}

} // verus!
