//! The pure part of reading a guess: picking the first character of a line
//! of input once trailing line endings are removed.

use vstd::prelude::*;

verus! {

/// Whether `c` is a line-ending character.
pub open spec fn is_line_ending(c: char) -> bool {
    c == '\n' || c == '\r'
}

/// Length of `s` once its trailing line-ending characters are removed.
pub open spec fn trimmed_len(s: Seq<char>) -> int
    decreases s.len(),
{
    if s.len() == 0 {
        0
    } else if is_line_ending(s.last()) {
        trimmed_len(s.drop_last())
    } else {
        s.len() as int
    }
}

/// First character of a line of player input: `None` when nothing but line
/// endings (or nothing at all) was read, otherwise the line's first character.
pub fn first_char_of_line(line: &Vec<char>) -> (r: Option<char>)
    ensures
        r == (if trimmed_len(line@) == 0 {
            None::<char>
        } else {
            Some(line@[0])
        }),
{
    let mut n: usize = line.len();
    proof {
        assert(line@.take(n as int) =~= line@);
    }
    while n > 0 && (line[n - 1] == '\n' || line[n - 1] == '\r')
        invariant
            n <= line@.len(),
            trimmed_len(line@) == trimmed_len(line@.take(n as int)),
        decreases n,
    {
        proof {
            assert(line@.take(n as int).drop_last() =~= line@.take(n as int - 1));
        }
        n -= 1;
    }
    if n == 0 {
        proof {
            assert(line@.take(0) =~= Seq::<char>::empty());
        }
        None
    } else {
        proof {
            assert(trimmed_len(line@.take(n as int)) == n);
        }
        Some(line[0])
    }
}

} // verus!
