//! The pure part of the network-activity probe: deciding, from the text
//! lines of the kernel's connection table, whether an established
//! connection to a non-local peer exists. Reading the table itself is
//! plain file input and stays with the driver; this module owns the
//! parsing and the decision.

use vstd::prelude::*;

use crate::text::{char_is_space, is_space_char, matches_at};

verus! {

/// The index just past the whitespace-free run that starts at `i`.
pub open spec fn token_end(s: Seq<char>, i: int) -> int
    decreases s.len() - i,
{
    if i < 0 || i >= s.len() || is_space_char(s[i]) {
        i
    } else {
        token_end(s, i + 1)
    }
}

/// A token neither ends early nor runs past the sequence.
proof fn lemma_token_end_bounds(s: Seq<char>, i: int)
    requires
        0 <= i <= s.len(),
    ensures
        i <= token_end(s, i) <= s.len(),
    decreases s.len() - i,
{
    if i < s.len() && !is_space_char(s[i]) {
        lemma_token_end_bounds(s, i + 1);
    }
}

/// `token_end` is pinned by its characters: it ends exactly at the first
/// whitespace at or after `i`.
proof fn lemma_token_end_unique(s: Seq<char>, i: int, j: int)
    requires
        0 <= i <= j <= s.len(),
        forall|k: int| i <= k < j ==> !is_space_char(s[k]),
        j == s.len() || is_space_char(s[j]),
    ensures
        token_end(s, i) == j,
    decreases j - i,
{
    if i < j {
        lemma_token_end_unique(s, i + 1, j);
    }
}

#[via_fn]
proof fn fields_from_decreases(s: Seq<char>, i: int) {
    if 0 <= i < s.len() && !is_space_char(s[i]) {
        lemma_token_end_bounds(s, i + 1);
        assert(token_end(s, i) == token_end(s, i + 1));
    }
}

/// The whitespace-separated fields of `s`, from position `i` on.
pub open spec fn fields_from(s: Seq<char>, i: int) -> Seq<Seq<char>>
    decreases s.len() - i,
    via fields_from_decreases
{
    if i < 0 || i >= s.len() {
        Seq::empty()
    } else if is_space_char(s[i]) {
        fields_from(s, i + 1)
    } else {
        seq![s.subrange(i, token_end(s, i))] + fields_from(s, token_end(s, i))
    }
}

/// The whitespace-separated fields of one line, in order: maximal runs
/// of non-whitespace characters.
pub open spec fn fields_of(s: Seq<char>) -> Seq<Seq<char>> {
    fields_from(s, 0)
}

/// Splits one line into its whitespace-separated fields.
pub fn split_fields(line: &str) -> (fields: Vec<String>)
    ensures
        fields.deep_view() == fields_of(line@),
{
    let ghost s = line@;
    let len = line.unicode_len();
    let mut fields: Vec<String> = Vec::new();
    let mut i: usize = 0;
    proof {
        assert(fields.deep_view() + fields_from(s, 0) =~= fields_from(s, 0));
    }
    while i < len
        invariant
            len == s.len(),
            s == line@,
            0 <= i <= len,
            fields.deep_view() + fields_from(s, i as int) == fields_of(s),
        decreases len - i,
    {
        if char_is_space(line.get_char(i)) {
            i += 1;
        } else {
            let start = i;
            let mut j = i + 1;
            loop
                invariant
                    len == s.len(),
                    s == line@,
                    start < j <= len,
                    forall|k: int| start <= k < j ==> !is_space_char(s[k]),
                ensures
                    start < j <= len,
                    forall|k: int| start <= k < j ==> !is_space_char(s[k]),
                    j == len || is_space_char(s[j as int]),
                decreases len - j,
            {
                if j >= len {
                    break ;
                }
                if char_is_space(line.get_char(j)) {
                    break ;
                }
                j += 1;
            }
            proof {
                lemma_token_end_unique(s, start as int, j as int);
            }
            let token = line.substring_char(start, j);
            let ghost fields_before = fields.deep_view();
            fields.push(String::from_str(token));
            proof {
                assert(fields.deep_view() =~= fields_before.push(token@));
                assert(fields.deep_view() + fields_from(s, j as int) =~= fields_before
                    + fields_from(s, start as int));
            }
            i = j;
        }
    }
    proof {
        assert(fields.deep_view() + fields_from(s, i as int) =~= fields.deep_view());
    }
    fields
}

/// The index of the first colon at or after `i`, or the sequence's
/// length when there is none.
pub open spec fn colon_from(s: Seq<char>, i: int) -> int
    decreases s.len() - i,
{
    if i < 0 || i >= s.len() {
        s.len() as int
    } else if s[i] == ':' {
        i
    } else {
        colon_from(s, i + 1)
    }
}

/// Whether a connection-table address field names the local host: the
/// hexadecimal part before the first colon is either eight digits
/// starting "7F" (an IPv4 loopback address) or the thirty-two-digit
/// IPv6 loopback constant. A field without a colon is not recognized.
pub open spec fn localhost_hex(s: Seq<char>) -> bool {
    let colon = colon_from(s, 0);
    if colon == s.len() {
        false
    } else {
        let hex = s.subrange(0, colon);
        (hex.len() == 8 && hex.subrange(0, 2) == "7F"@) || (hex.len() == 32 && hex
            == "00000000000000000000000000000001"@)
    }
}

/// Decides `localhost_hex` for one address field.
pub fn is_localhost_hex(address: &str) -> (r: bool)
    ensures
        r == localhost_hex(address@),
{
    let ghost s = address@;
    let len = address.unicode_len();
    let mut i: usize = 0;
    while i < len
        invariant
            len == s.len(),
            s == address@,
            0 <= i <= len,
            colon_from(s, 0) == colon_from(s, i as int),
        ensures
            0 <= i <= len,
            colon_from(s, 0) == i as int,
        decreases len - i,
    {
        if address.get_char(i) == ':' {
            break ;
        }
        i += 1;
    }
    if i == len {
        return false;
    }
    if i == 8 {
        proof {
            reveal_strlit("7F");
        }
        let r = matches_at(address, 0, "7F", 2);
        proof {
            let hex = s.subrange(0, 8);
            assert(hex.subrange(0, 2) =~= s.subrange(0, 2));
        }
        r
    } else if i == 32 {
        proof {
            reveal_strlit("00000000000000000000000000000001");
        }
        let needle = "00000000000000000000000000000001";
        let needle_len = needle.unicode_len();
        let r = matches_at(address, 0, needle, needle_len);
        proof {
            assert(s.subrange(0, 32) == s.subrange(0, needle@.len() as int));
        }
        r
    } else {
        false
    }
}

/// Whether one line of the connection table shows an established
/// connection to a non-local peer: it has at least four fields, its
/// fourth (the connection state) is "01" — established — and its second
/// (the local address) is not a localhost address.
pub open spec fn line_shows_remote_connection(line: Seq<char>) -> bool {
    let fields = fields_of(line);
    fields.len() >= 4 && fields[3] == "01"@ && !localhost_hex(fields[1])
}

/// Decides `line_shows_remote_connection` for one table line.
fn line_has_remote_connection(line: &str) -> (r: bool)
    ensures
        r == line_shows_remote_connection(line@),
{
    let fields = split_fields(line);
    if fields.len() < 4 {
        return false;
    }
    let established = String::from_str("01");
    if !fields[3].eq(&established) {
        return false;
    }
    let local_address = fields[1].as_str();
    let r = !is_localhost_hex(local_address);
    r
}

/// Whether any line of the given connection table shows an established
/// connection to a non-local peer.
pub fn has_non_localhost_connections(lines: &Vec<String>) -> (r: bool)
    ensures
        r == exists|k: int|
            0 <= k < lines@.len() && #[trigger] line_shows_remote_connection(lines@[k]@),
{
    let mut idx: usize = 0;
    while idx < lines.len()
        invariant
            0 <= idx <= lines@.len(),
            forall|k: int| 0 <= k < idx ==> !#[trigger] line_shows_remote_connection(lines@[k]@),
        decreases lines@.len() - idx,
    {
        if line_has_remote_connection(lines[idx].as_str()) {
            return true;
        }
        idx += 1;
    }
    false
}

/// Whether the host's network is active: some line of either connection
/// table (the one for IPv4, the one for IPv6) shows an established
/// non-local connection. The driver reads the two tables and hands
/// their lines here.
pub fn is_network_active(tcp_lines: &Vec<String>, tcp6_lines: &Vec<String>) -> (r: bool)
    ensures
        r == ((exists|k: int|
            0 <= k < tcp_lines@.len() && #[trigger] line_shows_remote_connection(
                tcp_lines@[k]@,
            )) || (exists|k: int|
            0 <= k < tcp6_lines@.len() && #[trigger] line_shows_remote_connection(
                tcp6_lines@[k]@,
            ))),
{
    has_non_localhost_connections(tcp_lines) || has_non_localhost_connections(tcp6_lines)
}

} // verus!
