//! Matching a freshly created UHID device to its `/dev/hidrawN` node by
//! the `HID_UNIQ` line of the node's `device/uevent` file.

use vstd::prelude::*;
use vstd::string::*;
use crate::text::{chars_of, push_char, range_equals, trim, trim_bounds};

verus! {

/// The key that introduces the serial in a uevent file.
pub open spec fn uniq_key() -> Seq<char> {
    seq!['H', 'I', 'D', '_', 'U', 'N', 'I', 'Q', '=']
}

/// `u[i..j]` is one line of `u`: it starts at the beginning or after a
/// newline, runs up to the next newline or the end, and holds no newline.
pub open spec fn is_line(u: Seq<char>, i: int, j: int) -> bool {
    &&& 0 <= i <= j <= u.len()
    &&& i == 0 || u[i - 1] == '\n'
    &&& j == u.len() || u[j] == '\n'
    &&& forall|k: int| i <= k < j ==> u[k] != '\n'
}

/// The line starts with `HID_UNIQ=` and what follows it, trimmed of
/// whitespace (a carriage return included), is exactly `serial`.
pub open spec fn line_names_serial(line: Seq<char>, serial: Seq<char>) -> bool {
    &&& line.len() >= 9
    &&& line.subrange(0, 9) == uniq_key()
    &&& trim(line.subrange(9, line.len() as int)) == serial
}

/// Some line of the uevent text names `serial` as the device's `HID_UNIQ`.
pub open spec fn uevent_names_serial(u: Seq<char>, serial: Seq<char>) -> bool {
    exists|i: int, j: int| is_line(u, i, j) && line_names_serial(u.subrange(i, j), serial)
}

proof fn lemma_line_end_unique(u: Seq<char>, i: int, j: int, b: int)
    requires
        is_line(u, i, j),
        is_line(u, i, b),
    ensures
        j == b,
{
    if b < j {
        assert(u[b] != '\n');
    } else if j < b {
        assert(u[j] != '\n');
    }
}

/// Whether the uevent text has a `HID_UNIQ=` line whose value, trimmed,
/// is `serial`. A serial that only appears inside another line (such as
/// `HID_NAME`) does not count.
pub fn uevent_has_uniq(uevent: &str, serial: &str) -> (r: bool)
    ensures
        r == uevent_names_serial(uevent@, serial@),
{
    let cs = chars_of(uevent);
    let want = chars_of(serial);
    let key: Vec<char> = vec!['H', 'I', 'D', '_', 'U', 'N', 'I', 'Q', '='];
    assert(key@ =~= uniq_key());
    let n = cs.len();
    let ghost u = cs@;
    let mut i: usize = 0;
    while i <= n
        invariant
            u == uevent@,
            cs@ == u,
            want@ == serial@,
            key@ == uniq_key(),
            n == u.len(),
            i <= n + 1,
            i <= n ==> (i == 0 || u[i - 1] == '\n'),
            forall|a: int, b: int|
                #![trigger is_line(u, a, b)]
                is_line(u, a, b) && a < i ==> !line_names_serial(u.subrange(a, b), serial@),
        decreases n + 1 - i,
    {
        let mut j = i;
        while j < n && cs[j] != '\n'
            invariant
                cs@ == u,
                n == u.len(),
                i <= j <= n,
                forall|k: int| i <= k < j ==> u[k] != '\n',
            decreases n - j,
        {
            j = j + 1;
        }
        assert(is_line(u, i as int, j as int));
        let ghost line = u.subrange(i as int, j as int);
        let mut hit = false;
        if j - i >= 9 && range_equals(&cs, i, i + 9, &key) {
            let (a, b) = trim_bounds(&cs, i + 9, j);
            assert(line.subrange(0, 9) =~= u.subrange(i as int, i + 9));
            assert(line.subrange(9, line.len() as int) =~= u.subrange(i + 9, j as int));
            if range_equals(&cs, a, b, &want) {
                hit = true;
            }
        } else if j - i >= 9 {
            assert(line.subrange(0, 9) =~= u.subrange(i as int, i + 9));
        }
        assert(hit == line_names_serial(line, serial@));
        if hit {
            return true;
        }
        assert forall|a: int, b: int|
            #![trigger is_line(u, a, b)]
            is_line(u, a, b) && a < j + 1 implies !line_names_serial(u.subrange(a, b), serial@) by {
            if a >= i {
                if a > i {
                    assert(u[a - 1] == '\n');
                    assert(false);
                }
                lemma_line_end_unique(u, i as int, j as int, b);
            }
        }
        if j >= n {
            return false;
        }
        i = j + 1;
    }
    false
}

/// Whether a `/sys/class/hidraw` entry name names a hidraw node.
pub fn is_hidraw_name(name: &str) -> (r: bool)
    ensures
        r == (name@.len() >= 6 && name@.subrange(0, 6) == seq!['h', 'i', 'd', 'r', 'a', 'w']),
{
    let cs = chars_of(name);
    let p: Vec<char> = vec!['h', 'i', 'd', 'r', 'a', 'w'];
    if cs.len() < 6 {
        return false;
    }
    let r = range_equals(&cs, 0, 6, &p);
    assert(p@ =~= seq!['h', 'i', 'd', 'r', 'a', 'w']);
    r
}

/// The device node path for a hidraw entry: `/dev/{name}`.
pub fn hidraw_device_path(name: &str) -> (r: String)
    ensures
        r@ == seq!['/', 'd', 'e', 'v', '/'] + name@,
{
    let mut r = String::new();
    push_char(&mut r, '/');
    push_char(&mut r, 'd');
    push_char(&mut r, 'e');
    push_char(&mut r, 'v');
    push_char(&mut r, '/');
    r.append(name);
    assert(r@ =~= seq!['/', 'd', 'e', 'v', '/'] + name@);
    r
}

} // verus!
