//! Checks on the serde JSON text of a message, made before it is parsed.
use vstd::prelude::*;
use vstd::string::StringSliceAdditionalSpecFns;

verus! {

/// The bytes that the JSON text of a message starts with, up to the first
/// character of its id: `{"header":{"id":"`.
pub open spec fn serde_json_msg_header_prefix() -> Seq<u8> {
    seq![123u8, 34, 104, 101, 97, 100, 101, 114, 34, 58, 123, 34, 105, 100, 34, 58, 34]
}

/// The number of bytes of the text form of an id.
pub const SIZE_ID: usize = 36;

/// `s` starts with the header prefix and is long enough to hold a whole id
/// after it.
pub open spec fn has_serde_json_msg_header(s: Seq<u8>) -> bool {
    let p = serde_json_msg_header_prefix();
    &&& s.len() >= p.len() + SIZE_ID
    &&& s.subrange(0, p.len() as int) == p
}

/// The position just past an id of `id_len` bytes that follows the prefix.
pub open spec fn header_id_end(id_len: nat) -> int {
    (serde_json_msg_header_prefix().len() + id_len) as int
}

/// `s` holds the header prefix followed by the bytes of `id`.
pub open spec fn serde_json_msg_header_has_id(id: Seq<u8>, s: Seq<u8>) -> bool {
    let p = serde_json_msg_header_prefix();
    &&& has_serde_json_msg_header(s)
    &&& s.subrange(p.len() as int, header_id_end(id.len())) == id
}

/// The header prefix, as bytes.
fn serde_json_msg_header_prefix_bytes() -> (p: Vec<u8>)
    ensures
        p@ == serde_json_msg_header_prefix(),
{
    let p: Vec<u8> = vec![123u8, 34, 104, 101, 97, 100, 101, 114, 34, 58, 123, 34, 105, 100, 34, 58, 34];
    assert(p@ =~= serde_json_msg_header_prefix());
    p
}

/// True when `s` starts with the header prefix, holds a whole id after it,
/// and the bytes after the prefix are those of `id`.
fn id_follows_msg_header_prefix(id: &[u8], s: &[u8]) -> (r: bool)
    requires
        has_serde_json_msg_header(s@) ==> serde_json_msg_header_prefix().len() + id@.len() <= s@.len(),
    ensures
        r == serde_json_msg_header_has_id(id@, s@),
{
    let p = serde_json_msg_header_prefix_bytes();
    let plen = p.len();
    if s.len() < plen || s.len() - plen < SIZE_ID {
        return false;
    }
    let mut i: usize = 0;
    while i < plen
        invariant
            p@ == serde_json_msg_header_prefix(),
            plen == p@.len(),
            plen <= s@.len(),
            0 <= i <= plen,
            forall|k: int| 0 <= k < i ==> s@[k] == p@[k],
        decreases plen - i,
    {
        if s[i] != p[i] {
            assert(s@.subrange(0, plen as int)[i as int] != p@[i as int]);
            return false;
        }
        i = i + 1;
    }
    assert(s@.subrange(0, plen as int) =~= p@);
    let idlen = id.len();
    let slen = s.len();
    let mut j: usize = 0;
    while j < idlen
        invariant
            has_serde_json_msg_header(s@),
            plen == serde_json_msg_header_prefix().len(),
            plen + idlen <= s@.len(),
            slen == s@.len(),
            idlen == id@.len(),
            0 <= j <= idlen,
            forall|k: int| 0 <= k < j ==> s@[plen + k] == id@[k],
        decreases idlen - j,
    {
        if s[plen + j] != id[j] {
            assert(s@.subrange(plen as int, plen + idlen)[j as int] != id@[j as int]);
            return false;
        }
        j = j + 1;
    }
    assert(s@.subrange(plen as int, plen + idlen) =~= id@);
    true
}


/// Compares `str_id` with the id at the start of the serde JSON text
/// `serde_json_msg_header`. True when that text starts with
/// `{"header":{"id":"`, holds at least a whole id after it, and the bytes
/// after the prefix are those of `str_id`.
///
/// Where the text has the prefix and a whole id, the bytes of `str_id` must
/// end inside the text at a character boundary.
pub fn cmp_str_id_and_serde_json_msg_header(str_id: &str, serde_json_msg_header: &str) -> (r: bool)
    requires
        has_serde_json_msg_header(serde_json_msg_header.spec_bytes()) ==> {
            &&& serde_json_msg_header_prefix().len() + str_id.spec_bytes().len()
                <= serde_json_msg_header.spec_bytes().len()
            &&& vstd::utf8::is_char_boundary(
                serde_json_msg_header.spec_bytes(),
                header_id_end(str_id.spec_bytes().len()),
            )
        },
    ensures
        r == serde_json_msg_header_has_id(str_id.spec_bytes(), serde_json_msg_header.spec_bytes()),
        r ==> forall|k: int| 0 <= k < str_id.spec_bytes().len()
            ==> serde_json_msg_header.spec_bytes()[17 + k] == #[trigger] str_id.spec_bytes()[k],
{
    let r = id_follows_msg_header_prefix(str_id.as_bytes(), serde_json_msg_header.as_bytes());
    proof {
        if r {
            lemma_has_id_compares_every_byte(str_id.spec_bytes(), serde_json_msg_header.spec_bytes());
        }
    }
    r
}

/// The header comparison compares every byte of the id, the first one
/// included: `s` holds `id` after its header prefix exactly when `s` is at
/// least 17 + 36 bytes long, starts with the 17 bytes of `{"header":{"id":"`,
/// and its byte `17 + k` is byte `k` of `id` for each `k` below the id's
/// length.
pub proof fn lemma_has_id_compares_every_byte(id: Seq<u8>, s: Seq<u8>)
    requires
        17 + id.len() <= s.len(),
    ensures
        serde_json_msg_header_has_id(id, s) <==> {
            &&& s.len() >= 17 + 36
            &&& forall|k: int| 0 <= k < 17 ==> s[k] == #[trigger] serde_json_msg_header_prefix()[k]
            &&& forall|k: int| 0 <= k < id.len() ==> s[17 + k] == #[trigger] id[k]
        },
        serde_json_msg_header_prefix() == seq![
            123u8, 34, 104, 101, 97, 100, 101, 114, 34, 58, 123, 34, 105, 100, 34, 58, 34,
        ],
{
    let p = serde_json_msg_header_prefix();
    assert(p.len() == 17);
    if serde_json_msg_header_has_id(id, s) {
        assert forall|k: int| 0 <= k < 17 implies s[k] == #[trigger] p[k] by {
            assert(s.subrange(0, 17)[k] == s[k]);
        }
        assert forall|k: int| 0 <= k < id.len() implies s[17 + k] == #[trigger] id[k] by {
            assert(s.subrange(17, 17 + id.len() as int)[k] == s[17 + k]);
        }
    }
    if s.len() >= 17 + 36 && (forall|k: int| 0 <= k < 17 ==> s[k] == #[trigger] p[k])
        && (forall|k: int| 0 <= k < id.len() ==> s[17 + k] == #[trigger] id[k]) {
        assert(s.subrange(0, 17) =~= p);
        assert(s.subrange(17, 17 + id.len() as int) =~= id);
    }
}

} // verus!
