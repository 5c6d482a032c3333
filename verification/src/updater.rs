use vstd::prelude::*;
use crate::text::{chars_equal, chars_of, trim, trim_chars};

verus! {

// ---------------------------------------------------------------------------
// Searching bytes
// ---------------------------------------------------------------------------

/// `needle` occurs in `hay` at position `i`.
pub open spec fn occurs_at(hay: Seq<u8>, needle: Seq<u8>, i: int) -> bool {
    0 <= i && i + needle.len() <= hay.len() && hay.subrange(i, i + needle.len()) == needle
}

/// The first position at or after `from` where `needle` occurs.
pub open spec fn find_from(hay: Seq<u8>, needle: Seq<u8>, from: int) -> Option<int>
    decreases hay.len() + 1 - from,
{
    if from < 0 || from + needle.len() > hay.len() {
        None
    } else if occurs_at(hay, needle, from) {
        Some(from)
    } else {
        find_from(hay, needle, from + 1)
    }
}

/// The first position where `needle` occurs, as `str::find` reports it.
pub open spec fn find_first(hay: Seq<u8>, needle: Seq<u8>) -> Option<int> {
    find_from(hay, needle, 0)
}

fn occurs_at_exec(hay: &[u8], needle: &[u8], i: usize) -> (res: bool)
    requires
        i + needle@.len() <= hay@.len(),
    ensures
        res == occurs_at(hay@, needle@, i as int),
{
    let m = needle.len();
    let mut k: usize = 0;
    while k < m
        invariant
            k <= m == needle@.len(),
            i + m <= hay@.len(),
            hay@.len() == hay.len(),
            forall|j: int| 0 <= j < k ==> hay@[i + j] == needle@[j],
        decreases m - k,
    {
        if hay[i + k] != needle[k] {
            assert(hay@.subrange(i as int, i + m)[k as int] != needle@[k as int]);
            return false;
        }
        k = k + 1;
    }
    assert(hay@.subrange(i as int, i + m) =~= needle@);
    true
}

/// The first position at or after `from` where `needle` occurs in `hay`.
pub fn find_bytes(hay: &[u8], needle: &[u8], from: usize) -> (res: Option<usize>)
    ensures
        match res {
            Some(i) => find_from(hay@, needle@, from as int) == Some(i as int),
            None => find_from(hay@, needle@, from as int) is None,
        },
{
    let n = hay.len();
    let m = needle.len();
    if m > n {
        return None;
    }
    let mut i = from;
    while i <= n - m
        invariant
            from <= i,
            m <= n == hay@.len(),
            m == needle@.len(),
            find_from(hay@, needle@, from as int) == find_from(hay@, needle@, i as int),
        decreases n - m + 1 - i,
    {
        if occurs_at_exec(hay, needle, i) {
            return Some(i);
        }
        if i == n - m {
            assert(find_from(hay@, needle@, i + 1) is None);
            return None;
        }
        i = i + 1;
    }
    None
}

/// Whether `needle` occurs anywhere in `hay`, as `str::contains` reports it.
pub fn contains_bytes(hay: &[u8], needle: &[u8]) -> (res: bool)
    ensures
        res == find_first(hay@, needle@) is Some,
{
    match find_bytes(hay, needle, 0) {
        Some(_) => true,
        None => false,
    }
}

/// A `find_from` answer is a real occurrence, and the first one from there.
pub proof fn lemma_find_from(hay: Seq<u8>, needle: Seq<u8>, from: int)
    requires
        0 <= from,
    ensures
        match find_from(hay, needle, from) {
            Some(i) => from <= i && occurs_at(hay, needle, i) && forall|j: int|
                from <= j < i ==> !occurs_at(hay, needle, j),
            None => forall|j: int| from <= j ==> !occurs_at(hay, needle, j),
        },
    decreases hay.len() + 1 - from,
{
    if from + needle.len() > hay.len() {
    } else if occurs_at(hay, needle, from) {
    } else {
        lemma_find_from(hay, needle, from + 1);
    }
}

// ---------------------------------------------------------------------------
// Reading the latest commit
// ---------------------------------------------------------------------------

/// The key before the commit hash in the repository's answer: `"sha":`.
pub open spec fn sha_key() -> Seq<u8> {
    seq![34u8, 115u8, 104u8, 97u8, 34u8, 58u8]
}

pub open spec fn quote() -> Seq<u8> {
    seq![34u8]
}

/// The hash of the latest commit in the repository's answer: the text between the first
/// two double quotes after the first `"sha":`.
pub open spec fn latest_commit_of(response: Seq<u8>) -> Option<Seq<u8>> {
    match find_first(response, sha_key()) {
        None => None,
        Some(k) => {
            let rest = response.skip(k + sha_key().len());
            match find_first(rest, quote()) {
                None => None,
                Some(s) => {
                    let after = rest.skip(s + 1);
                    match find_first(after, quote()) {
                        None => None,
                        Some(e) => Some(after.take(e)),
                    }
                },
            }
        },
    }
}

fn skip_bytes(v: &[u8], k: usize) -> (res: Vec<u8>)
    requires
        k <= v@.len(),
    ensures
        res@ == v@.skip(k as int),
{
    let mut out: Vec<u8> = Vec::new();
    let n = v.len();
    let mut i = k;
    while i < n
        invariant
            k <= i <= n == v@.len(),
            out@ == v@.subrange(k as int, i as int),
        decreases n - i,
    {
        out.push(v[i]);
        assert(out@ =~= v@.subrange(k as int, i + 1));
        i = i + 1;
    }
    assert(v@.subrange(k as int, n as int) =~= v@.skip(k as int));
    out
}

fn take_bytes(v: &[u8], k: usize) -> (res: Vec<u8>)
    requires
        k <= v@.len(),
    ensures
        res@ == v@.take(k as int),
{
    let mut out: Vec<u8> = Vec::new();
    let mut i: usize = 0;
    while i < k
        invariant
            i <= k <= v@.len(),
            out@ == v@.take(i as int),
        decreases k - i,
    {
        out.push(v[i]);
        assert(out@ =~= v@.take(i + 1));
        i = i + 1;
    }
    out
}

/// Reads the hash of the latest commit out of the repository's answer.
pub fn latest_commit(response: &[u8]) -> (res: Option<Vec<u8>>)
    ensures
        match res {
            Some(c) => latest_commit_of(response@) == Some(c@),
            None => latest_commit_of(response@) is None,
        },
{
    let key: [u8; 6] = [34u8, 115u8, 104u8, 97u8, 34u8, 58u8];
    let q: [u8; 1] = [34u8];
    assert(key@ =~= sha_key());
    assert(q@ =~= quote());
    let ks = key.as_slice();
    let qs = q.as_slice();
    assert(ks@ == sha_key());
    assert(qs@ == quote());
    let k = match find_bytes(response, ks, 0) {
        Some(k) => k,
        None => return None,
    };
    proof {
        lemma_find_from(response@, sha_key(), 0);
        assert(occurs_at(response@, sha_key(), k as int));
    }
    let rlen = response.len();
    assert(k + 6 <= rlen);
    let rest = skip_bytes(response, k + 6);
    let s = match find_bytes(rest.as_slice(), qs, 0) {
        Some(s) => s,
        None => return None,
    };
    proof {
        lemma_find_from(rest@, quote(), 0);
        assert(occurs_at(rest@, quote(), s as int));
    }
    let rlen2 = rest.len();
    assert(s + 1 <= rlen2);
    let after = skip_bytes(rest.as_slice(), s + 1);
    let e = match find_bytes(after.as_slice(), qs, 0) {
        Some(e) => e,
        None => return None,
    };
    proof {
        lemma_find_from(after@, quote(), 0);
    }
    Some(take_bytes(after.as_slice(), e))
}

/// How many bytes of a hash make its short form.
pub const SHORT_HASH_LEN: usize = 7;

/// The byte starts a character (is not a UTF-8 continuation byte).
pub open spec fn starts_char(b: u8) -> bool {
    !(0x80 <= b <= 0xbf)
}

/// The short form of a hash: its first seven bytes, or all of it when shorter. The cut
/// must fall between characters.
pub fn short_commit(latest: &[u8]) -> (res: Vec<u8>)
    requires
        latest@.len() > SHORT_HASH_LEN ==> starts_char(latest@[SHORT_HASH_LEN as int]),
    ensures
        res@ == if latest@.len() >= SHORT_HASH_LEN {
            latest@.take(SHORT_HASH_LEN as int)
        } else {
            latest@
        },
{
    if latest.len() >= SHORT_HASH_LEN {
        take_bytes(latest, SHORT_HASH_LEN)
    } else {
        let r = take_bytes(latest, latest.len());
        assert(latest@.take(latest@.len() as int) =~= latest@);
        r
    }
}

fn bytes_equal(a: &[u8], b: &[u8]) -> (res: bool)
    ensures
        res == (a@ == b@),
{
    if a.len() != b.len() {
        return false;
    }
    let n = a.len();
    let mut i: usize = 0;
    while i < n
        invariant
            i <= n == a@.len() == b@.len(),
            forall|k: int| 0 <= k < i ==> a@[k] == b@[k],
        decreases n - i,
    {
        if a[i] != b[i] {
            return false;
        }
        i = i + 1;
    }
    assert(a@ =~= b@);
    true
}

/// The text of `unknown`, which the build writes when it knows no commit.
pub open spec fn unknown_text() -> Seq<u8> {
    seq![117u8, 110u8, 107u8, 110u8, 111u8, 119u8, 110u8]
}

/// An update is offered when the latest short hash is not empty, differs from the
/// running build's, and the running build knows its own hash.
pub fn update_offered(latest_short: &[u8], current: &[u8]) -> (res: bool)
    ensures
        res == (latest_short@ != current@ && current@ != unknown_text() && latest_short@.len()
            > 0),
{
    let unknown: [u8; 7] = [117u8, 110u8, 107u8, 110u8, 111u8, 119u8, 110u8];
    assert(unknown@ =~= unknown_text());
    !bytes_equal(latest_short, current) && !bytes_equal(current, unknown.as_slice())
        && latest_short.len() > 0
}

/// The signal file that switches updates on, and the text it must hold: the DLC branch
/// has its own.
pub fn update_signal(branch: &str) -> (res: (&'static str, &'static str))
    ensures
        res.0@ == if branch@ == "DLC"@ {
            "dlc_signal.txt"@
        } else {
            "update_signal.txt"@
        },
        res.1@ == if branch@ == "DLC"@ {
            "DLC"@
        } else {
            "IDN:226531"@
        },
{
    let b = chars_of(branch);
    if chars_equal(&b, "DLC") {
        ("dlc_signal.txt", "DLC")
    } else {
        ("update_signal.txt", "IDN:226531")
    }
}

/// The player's answer accepts the update: `y` or `yes` in any case, around which white
/// space is ignored (no other character turns into these letters in lower case).
pub open spec fn accepts(answer: Seq<char>) -> bool {
    let t = trim(answer);
    ||| (t.len() == 1 && (t[0] == 'y' || t[0] == 'Y'))
    ||| (t.len() == 3 && (t[0] == 'y' || t[0] == 'Y') && (t[1] == 'e' || t[1] == 'E') && (t[2]
        == 's' || t[2] == 'S'))
}

pub fn wants_update(answer: &str) -> (res: bool)
    ensures
        res == accepts(answer@),
{
    let c = chars_of(answer);
    let t = trim_chars(&c);
    if t.len() == 1 {
        t[0] == 'y' || t[0] == 'Y'
    } else if t.len() == 3 {
        (t[0] == 'y' || t[0] == 'Y') && (t[1] == 'e' || t[1] == 'E') && (t[2] == 's' || t[2]
            == 'S')
    } else {
        false
    }
}

/// The DLC signal file switches hacker mode on when it holds exactly
/// `HACKER-MODE-DLC`, give or take white space around it.
pub fn is_hacker_signal(content: &str) -> (res: bool)
    ensures
        res == (trim(content@) == "HACKER-MODE-DLC"@),
{
    let c = chars_of(content);
    let t = trim_chars(&c);
    chars_equal(&t, "HACKER-MODE-DLC")
}

} // verus!
