//! The banner line generator: bounded-length random printable lines that end
//! in CR LF and never start with the SSH protocol identifier.

use vstd::prelude::*;

verus! {

pub const CR: u8 = 13;

pub const LF: u8 = 10;

/// Printable ASCII, the only bytes allowed in a line body.
pub open spec fn printable(b: u8) -> bool {
    32 <= b <= 126
}

/// Whether `s` begins with the four bytes `SSH-`.
pub open spec fn has_ssh_prefix(s: Seq<u8>) -> bool {
    s.len() >= 4 && s[0] == 83 && s[1] == 83 && s[2] == 72 && s[3] == 45
}

/// A well-formed banner line: between 3 and `max_len` bytes, a printable
/// body, a CR LF terminator, and no `SSH-` prefix.
pub open spec fn line_wf(s: Seq<u8>, max_len: int) -> bool {
    &&& 3 <= s.len() <= max_len
    &&& s[s.len() - 2] == CR
    &&& s[s.len() - 1] == LF
    &&& forall|i: int| 0 <= i < s.len() - 2 ==> printable(#[trigger] s[i])
    &&& !has_ssh_prefix(s)
}

/// The line built from `draws`, the randomly drawn body bytes: the body,
/// then CR LF, with the first byte overwritten by `X` if the result would
/// otherwise start with `SSH-`.
pub open spec fn line_of_draws(len: nat, draws: Seq<u8>) -> Seq<u8> {
    let raw = draws + seq![CR, LF];
    if len > 3 && has_ssh_prefix(raw) {
        raw.update(0, 88u8)
    } else {
        raw
    }
}

/// Builds the banner line for the given body draws, deterministically.
///
/// This is the whole of the generator except the random draws themselves:
/// handing it the draws pins every byte of the result.
pub fn line_from_draws(len: usize, draws: &Vec<u8>) -> (line: Vec<u8>)
    requires
        3 <= len,
        draws@.len() == len - 2,
    ensures
        line@ == line_of_draws(len as nat, draws@),
{
    let mut line: Vec<u8> = Vec::new();
    let mut i: usize = 0;
    while i < draws.len()
        invariant
            i <= draws@.len(),
            line@ == draws@.take(i as int),
        decreases draws@.len() - i,
    {
        line.push(draws[i]);
        i += 1;
        proof {
            assert(line@ =~= draws@.take(i as int));
        }
    }
    proof {
        assert(line@ =~= draws@);
    }
    line.push(CR);
    line.push(LF);
    if len > 3 && line[0] == 83 && line[1] == 83 && line[2] == 72 && line[3] == 45 {
        line.set(0, 88);
    }
    proof {
        assert(line@ =~= line_of_draws(len as nat, draws@));
    }
    line
}

/// A line built from printable draws is well formed.
pub proof fn lemma_line_wf(len: nat, draws: Seq<u8>, max_len: int)
    requires
        3 <= len <= max_len,
        draws.len() == len - 2,
        forall|i: int| 0 <= i < draws.len() ==> printable(#[trigger] draws[i]),
    ensures
        line_wf(line_of_draws(len, draws), max_len),
{
    let raw = draws + seq![CR, LF];
    let line = line_of_draws(len, draws);
    assert forall|i: int| 0 <= i < line.len() - 2 implies printable(#[trigger] line[i]) by {
        if len > 3 && has_ssh_prefix(raw) && i == 0 {
            assert(line[0] == 88u8);
        } else {
            assert(line[i] == draws[i]);
        }
    }
    if len > 3 && has_ssh_prefix(raw) {
        assert(line[0] == 88u8);
    }
}

/// Relies on `rand::random_range`: a uniform draw from a non-empty inclusive
/// range lies within that range.
#[verifier::external_body]
fn random_usize_in(lo: usize, hi: usize) -> (r: usize)
    requires
        lo <= hi,
    ensures
        lo <= r <= hi,
{
    rand::random_range(lo..=hi)
}

/// Relies on `rand::random_range`: a uniform draw from a non-empty inclusive
/// range lies within that range.
#[verifier::external_body]
fn random_u8_in(lo: u8, hi: u8) -> (r: u8)
    requires
        lo <= hi,
    ensures
        lo <= r <= hi,
{
    rand::random_range(lo..=hi)
}

/// Generates one banner line: a random length in `[3, maxlen]`, a printable
/// body, a CR LF terminator, and never an `SSH-` prefix.
pub fn randline(maxlen: usize) -> (line: Vec<u8>)
    requires
        3 <= maxlen <= 255,
    ensures
        line_wf(line@, maxlen as int),
{
    let len = random_usize_in(3, maxlen);
    let mut draws: Vec<u8> = Vec::new();
    let mut i: usize = 0;
    while i < len - 2
        invariant
            3 <= len,
            i <= len - 2,
            draws@.len() == i,
            forall|j: int| 0 <= j < draws@.len() ==> printable(#[trigger] draws@[j]),
        decreases len - 2 - i,
    {
        draws.push(random_u8_in(32, 126));
        i += 1;
    }
    let line = line_from_draws(len, &draws);
    proof {
        lemma_line_wf(len as nat, draws@, maxlen as int);
    }
    line
}

} // verus!
