//! The document store on a Git host's contents API: where each document
//! lives, how its content is encoded, and what each HTTP status means. The
//! requests themselves are made at the service edge.
use vstd::prelude::*;

use base64::Engine;

use crate::text::{chars_of, string_before, string_of};

verus! {

/// Failures of the store.
#[derive(Debug, Clone)]
pub enum StoreError {
    /// The request could not be made; the text says why.
    Http(String),
    /// The API answered with a failure, or sent content that does not decode.
    Api(String),
    NotFound,
    /// The document changed since it was read: read it again and retry.
    Conflict,
    /// A document is not the JSON it should be.
    Json(String),
}

/// The character of a 6-bit value in the standard alphabet.
pub open spec fn b64_char(n: int) -> char {
    if n < 26 {
        ('A' as int + n) as char
    } else if n < 52 {
        ('a' as int + (n - 26)) as char
    } else if n < 62 {
        ('0' as int + (n - 52)) as char
    } else if n == 62 {
        '+'
    } else {
        '/'
    }
}

/// Base64 (standard alphabet, padded): each group of three bytes becomes four
/// characters; a last group of one or two bytes is completed with `=`.
pub open spec fn spec_b64_encode(bytes: Seq<u8>) -> Seq<char>
    decreases bytes.len(),
{
    if bytes.len() == 0 {
        Seq::empty()
    } else if bytes.len() == 1 {
        let b0 = bytes[0] as int;
        seq![b64_char(b0 / 4), b64_char((b0 % 4) * 16), '=', '=']
    } else if bytes.len() == 2 {
        let b0 = bytes[0] as int;
        let b1 = bytes[1] as int;
        seq![b64_char(b0 / 4), b64_char((b0 % 4) * 16 + b1 / 16), b64_char((b1 % 16) * 4), '=']
    } else {
        let b0 = bytes[0] as int;
        let b1 = bytes[1] as int;
        let b2 = bytes[2] as int;
        seq![
            b64_char(b0 / 4),
            b64_char((b0 % 4) * 16 + b1 / 16),
            b64_char((b1 % 16) * 4 + b2 / 64),
            b64_char(b2 % 64),
        ] + spec_b64_encode(bytes.skip(3))
    }
}

/// The bytes a text stands for when it is the padded standard encoding of
/// some bytes (the engine accepts canonical encodings only); `None` otherwise.
pub open spec fn spec_b64_decode(text: Seq<char>) -> Option<Seq<u8>> {
    if exists|b: Seq<u8>| spec_b64_encode(b) == text {
        Some(choose|b: Seq<u8>| spec_b64_encode(b) == text)
    } else {
        None
    }
}

/// `base64::engine::general_purpose::STANDARD.encode`: the padded standard
/// encoding of the bytes. Its text uses only the base64 alphabet and `=`
/// (so no line breaks), and the same engine decodes it back to the bytes.
/// The crate panics when the encoded length overflows `usize`, which the
/// bound on the input excludes.
#[verifier::external_body]
fn b64_encode(bytes: &[u8]) -> (s: String)
    requires
        bytes@.len() <= usize::MAX / 2,
    ensures
        s@ == spec_b64_encode(bytes@),
        !s@.contains('\n'),
        spec_b64_decode(s@) == Some(bytes@),
{
    base64::engine::general_purpose::STANDARD.encode(bytes)
}

/// `base64::engine::general_purpose::STANDARD.decode`: the bytes of a padded
/// standard base64 text, or the crate's error message when it is not one. The
/// engine's configuration (`PAD`) requires canonical padding and no trailing
/// bits, so it accepts exactly the texts `spec_b64_encode` produces, and each
/// such text for one byte sequence only.
#[verifier::external_body]
fn b64_decode(text: &str) -> (r: Result<Vec<u8>, String>)
    ensures
        match r {
            Ok(v) => spec_b64_decode(text@) == Some(v@),
            Err(_) => spec_b64_decode(text@) is None,
        },
{
    match base64::engine::general_purpose::STANDARD.decode(text) {
        Ok(v) => Ok(v),
        Err(e) => Err(e.to_string()),
    }
}

/// `s` without any `c`.
pub open spec fn without_char(s: Seq<char>, c: char) -> Seq<char>
    decreases s.len(),
{
    if s.len() == 0 {
        s
    } else if s.last() == c {
        without_char(s.drop_last(), c)
    } else {
        without_char(s.drop_last(), c).push(s.last())
    }
}

proof fn lemma_without_absent(s: Seq<char>, c: char)
    requires
        !s.contains(c),
    ensures
        without_char(s, c) == s,
    decreases s.len(),
{
    if s.len() > 0 {
        assert(!s.drop_last().contains(c)) by {
            if s.drop_last().contains(c) {
                let k = choose|k: int| 0 <= k < s.drop_last().len() && s.drop_last()[k] == c;
                assert(s[k] == c);
            }
        }
        lemma_without_absent(s.drop_last(), c);
        assert(s.last() != c) by {
            assert(s[s.len() - 1] == s.last());
        }
        assert(s.drop_last().push(s.last()) =~= s);
    }
}

/// Removes every `c` from `s`.
pub fn remove_char(s: &str, c: char) -> (r: String)
    ensures
        r@ == without_char(s@, c),
{
    let cs = chars_of(s);
    let mut out: Vec<char> = Vec::new();
    let mut i: usize = 0;
    while i < cs.len()
        invariant
            i <= cs.len(),
            cs@ == s@,
            out@ == without_char(s@.take(i as int), c),
        decreases cs.len() - i,
    {
        assert(s@.take(i + 1).drop_last() =~= s@.take(i as int));
        if cs[i] != c {
            out.push(cs[i]);
        }
        i += 1;
    }
    assert(s@.take(cs.len() as int) =~= s@);
    string_of(&out)
}

/// The content field of a document to write: its bytes in base64. What is
/// written this way reads back, line breaks and all, as the same bytes.
pub fn encode_content(bytes: &[u8]) -> (s: String)
    requires
        bytes@.len() <= usize::MAX / 2,
    ensures
        s@ == spec_b64_encode(bytes@),
        spec_b64_decode(without_char(s@, '\n')) == Some(bytes@),
{
    let s = b64_encode(bytes);
    proof {
        lemma_without_absent(s@, '\n');
    }
    s
}

/// The bytes of a document's content field as the API sends it (base64
/// with line breaks); content that does not decode is an `Api` error.
pub fn decode_content(raw: &str) -> (r: Result<Vec<u8>, StoreError>)
    ensures
        match spec_b64_decode(without_char(raw@, '\n')) {
            Some(b) => r matches Ok(v) && v@ == b,
            None => r matches Err(StoreError::Api(_)),
        },
{
    let joined = remove_char(raw, '\n');
    match b64_decode(joined.as_str()) {
        Ok(v) => Ok(v),
        Err(msg) => Err(StoreError::Api(msg)),
    }
}

/// `s` without leading `c`s.
pub open spec fn trim_start_char(s: Seq<char>, c: char) -> Seq<char>
    decreases s.len(),
{
    if s.len() > 0 && s[0] == c {
        trim_start_char(s.drop_first(), c)
    } else {
        s
    }
}

/// `s` without trailing `c`s.
pub open spec fn trim_end_char(s: Seq<char>, c: char) -> Seq<char>
    decreases s.len(),
{
    if s.len() > 0 && s.last() == c {
        trim_end_char(s.drop_last(), c)
    } else {
        s
    }
}

/// `str::trim_matches` with one character: both ends stripped of it.
pub fn trim_char(s: &str, c: char) -> (r: String)
    ensures
        r@ == trim_end_char(trim_start_char(s@, c), c),
{
    let cs = chars_of(s);
    let mut a: usize = 0;
    assert(s@.skip(0) =~= s@);
    while a < cs.len() && cs[a] == c
        invariant
            a <= cs.len(),
            cs@ == s@,
            trim_start_char(s@, c) == trim_start_char(s@.skip(a as int), c),
        decreases cs.len() - a,
    {
        assert(s@.skip(a as int).drop_first() =~= s@.skip(a + 1));
        a += 1;
    }
    assert(trim_start_char(s@.skip(a as int), c) == s@.skip(a as int));
    let mut b: usize = cs.len();
    while b > a && cs[b - 1] == c
        invariant
            a <= b <= cs.len(),
            cs@ == s@,
            trim_end_char(s@.skip(a as int), c) == trim_end_char(s@.subrange(a as int, b as int), c),
        decreases b,
    {
        assert(s@.subrange(a as int, b as int).drop_last() =~= s@.subrange(a as int, b - 1));
        b -= 1;
    }
    assert(s@.skip(a as int) =~= s@.subrange(a as int, cs.len() as int));
    let mut out: Vec<char> = Vec::new();
    let mut i: usize = a;
    while i < b
        invariant
            a <= i <= b <= cs.len(),
            cs@ == s@,
            out@ == s@.subrange(a as int, i as int),
        decreases b - i,
    {
        out.push(cs[i]);
        i += 1;
        assert(out@ =~= s@.subrange(a as int, i as int));
    }
    string_of(&out)
}

/// Where the documents live: a repository, a branch, and a folder in it.
pub struct StoreLocation {
    pub owner: String,
    pub repo: String,
    pub branch: String,
    /// Folder prefix without leading or trailing `/`.
    pub root: String,
}

/// A location under `root`, stripped of its slashes.
pub fn with_root(owner: String, repo: String, branch: String, root: &str) -> (l: StoreLocation)
    ensures
        l.owner@ == owner@,
        l.repo@ == repo@,
        l.branch@ == branch@,
        l.root@ == trim_end_char(trim_start_char(root@, '/'), '/'),
{
    StoreLocation { owner, repo, branch, root: trim_char(root, '/') }
}

/// The default folder.
pub fn default_root() -> (r: String)
    ensures
        r@ == "chess"@,
{
    String::from_str("chess")
}

impl StoreLocation {
    /// `{root}/{collection}/{id}.json`
    pub fn doc_path(&self, collection: &str, id: &str) -> (p: String)
        ensures
            p@ == self.root@ + seq!['/'] + collection@ + seq!['/'] + id@ + ".json"@,
    {
        let mut p = self.root.clone();
        p.push('/');
        p.append(collection);
        p.push('/');
        p.append(id);
        p.append(".json");
        p
    }

    /// `{root}/{collection}`
    pub fn collection_path(&self, collection: &str) -> (p: String)
        ensures
            p@ == self.root@ + seq!['/'] + collection@,
    {
        let mut p = self.root.clone();
        p.push('/');
        p.append(collection);
        p
    }

    /// The contents endpoint of the repository.
    pub fn api_base(&self) -> (u: String)
        ensures
            u@ == "https://api.github.com/repos/"@ + self.owner@ + seq!['/'] + self.repo@ + "/contents"@,
    {
        let mut u = String::from_str("https://api.github.com/repos/");
        u.append(self.owner.as_str());
        u.push('/');
        u.append(self.repo.as_str());
        u.append("/contents");
        u
    }

    /// The URL that writes or deletes the file at `path`.
    pub fn write_url(&self, path: &str) -> (u: String)
        ensures
            u@ == "https://api.github.com/repos/"@ + self.owner@ + seq!['/'] + self.repo@ + "/contents"@
                + seq!['/'] + path@,
    {
        let mut u = self.api_base();
        u.push('/');
        u.append(path);
        u
    }

    /// The URL that reads the file or folder at `path` on the store's branch.
    pub fn read_url(&self, path: &str) -> (u: String)
        ensures
            u@ == "https://api.github.com/repos/"@ + self.owner@ + seq!['/'] + self.repo@ + "/contents"@
                + seq!['/'] + path@ + "?ref="@ + self.branch@,
    {
        let mut u = self.write_url(path);
        u.append("?ref=");
        u.append(self.branch.as_str());
        u
    }
}

/// The `Authorization` header value for a token.
pub fn bearer_header(token: &str) -> (h: String)
    ensures
        h@ == "Bearer "@ + token@,
{
    let mut h = String::from_str("Bearer ");
    h.append(token);
    h
}

/// `s` with the suffix removed as often as it ends with it
/// (`str::trim_end_matches` with a text).
pub open spec fn trim_suffix_all(s: Seq<char>, suffix: Seq<char>) -> Seq<char>
    decreases s.len(),
{
    if suffix.len() > 0 && s.len() >= suffix.len() && s.subrange(s.len() - suffix.len(), s.len() as int)
        == suffix {
        trim_suffix_all(s.subrange(0, s.len() - suffix.len()), suffix)
    } else {
        s
    }
}

pub open spec fn json_suffix() -> Seq<char> {
    seq!['.', 'j', 's', 'o', 'n']
}

pub open spec fn ends_with_json(s: Seq<char>) -> bool {
    s.len() >= 5 && s.subrange(s.len() - 5, s.len() as int) == json_suffix()
}

fn ends_with_json_chars(cs: &Vec<char>, n: usize) -> (r: bool)
    requires
        n <= cs@.len(),
    ensures
        r == ends_with_json(cs@.take(n as int)),
{
    if n < 5 {
        return false;
    }
    let r = cs[n - 5] == '.' && cs[n - 4] == 'j' && cs[n - 3] == 's' && cs[n - 2] == 'o' && cs[n
        - 1] == 'n';
    let ghost t = cs@.take(n as int);
    assert(r == (t.subrange(t.len() - 5, t.len() as int) =~= json_suffix()));
    r
}

/// A file name without its `.json` endings (`trim_end_matches(".json")`).
pub fn strip_json_suffix(name: &str) -> (r: String)
    ensures
        r@ == trim_suffix_all(name@, json_suffix()),
{
    let cs = chars_of(name);
    let mut n: usize = cs.len();
    assert(cs@.take(n as int) =~= cs@);
    while ends_with_json_chars(&cs, n)
        invariant
            n <= cs@.len(),
            cs@ == name@,
            trim_suffix_all(name@, json_suffix()) == trim_suffix_all(cs@.take(n as int), json_suffix()),
        decreases n,
    {
        assert(cs@.take(n as int).subrange(0, n - 5) =~= cs@.take(n - 5));
        n -= 5;
    }
    string_before(&cs, n)
}

/// One entry of a folder listing.
pub struct ListingItem {
    pub name: String,
    pub kind: String,
}

pub open spec fn listing_keeps(item: ListingItem) -> bool {
    item.kind@ == "file"@ && ends_with_json(item.name@)
}

pub open spec fn spec_listing_ids(items: Seq<ListingItem>) -> Seq<Seq<char>>
    decreases items.len(),
{
    if items.len() == 0 {
        Seq::empty()
    } else if listing_keeps(items.last()) {
        spec_listing_ids(items.drop_last()).push(trim_suffix_all(items.last().name@, json_suffix()))
    } else {
        spec_listing_ids(items.drop_last())
    }
}

/// The document ids in a folder listing: its `.json` files, named without
/// the suffix, in listing order.
pub fn listing_ids(items: &Vec<ListingItem>) -> (ids: Vec<String>)
    ensures
        crate::text::strings_view(ids@) == spec_listing_ids(items@),
{
    let mut ids: Vec<String> = Vec::new();
    let mut i: usize = 0;
    while i < items.len()
        invariant
            i <= items@.len(),
            crate::text::strings_view(ids@) == spec_listing_ids(items@.take(i as int)),
        decreases items.len() - i,
    {
        assert(items@.take(i + 1).drop_last() =~= items@.take(i as int));
        let item = &items[i];
        let cs = chars_of(item.name.as_str());
        let keep = item.kind.as_str().eq("file") && ends_with_json_chars(&cs, cs.len());
        proof {
            assert(cs@.take(cs@.len() as int) =~= cs@);
        }
        if keep {
            let id = strip_json_suffix(item.name.as_str());
            let ghost before = crate::text::strings_view(ids@);
            ids.push(id);
            assert(crate::text::strings_view(ids@) =~= before.push(id@));
        }
        i += 1;
    }
    assert(items@.take(items@.len() as int) =~= items@);
    ids
}

/// What an HTTP status means for a store request.
#[derive(Debug, Clone, Copy, PartialEq, Eq, Structural)]
pub enum StatusOutcome {
    /// Success: go on with the body.
    Proceed,
    /// `404`.
    Missing,
    /// `409` on a write.
    Conflict,
    /// Any other failure: the body is the error text.
    Failed,
}

pub open spec fn is_success(status: u16) -> bool {
    200 <= status <= 299
}

/// Reads and listings: `404` is a missing document (an empty listing).
pub fn read_outcome(status: u16) -> (o: StatusOutcome)
    ensures
        o == (if status == 404 {
            StatusOutcome::Missing
        } else if !is_success(status) {
            StatusOutcome::Failed
        } else {
            StatusOutcome::Proceed
        }),
{
    if status == 404 {
        StatusOutcome::Missing
    } else if !(200 <= status && status <= 299) {
        StatusOutcome::Failed
    } else {
        StatusOutcome::Proceed
    }
}

/// Writes: `409` means the document changed since it was read.
pub fn write_outcome(status: u16) -> (o: StatusOutcome)
    ensures
        o == (if status == 409 {
            StatusOutcome::Conflict
        } else if !is_success(status) {
            StatusOutcome::Failed
        } else {
            StatusOutcome::Proceed
        }),
{
    if status == 409 {
        StatusOutcome::Conflict
    } else if !(200 <= status && status <= 299) {
        StatusOutcome::Failed
    } else {
        StatusOutcome::Proceed
    }
}

/// Deletes: deleting what is already gone succeeds.
pub fn delete_outcome(status: u16) -> (r: Result<(), StatusOutcome>)
    ensures
        r == (if status == 404 || is_success(status) {
            Ok::<(), StatusOutcome>(())
        } else {
            Err(StatusOutcome::Failed)
        }),
{
    if status == 404 || (200 <= status && status <= 299) {
        Ok(())
    } else {
        Err(StatusOutcome::Failed)
    }
}

/// Before overwriting a document its current revision is read: present, it
/// is sent along; missing, the write creates the document; any other failure
/// stops the write.
pub fn revision_for_overwrite(read: Result<String, StoreError>) -> (r: Result<Option<String>, StoreError>)
    ensures
        match read {
            Ok(sha) => r matches Ok(Some(s)) && s@ == sha@,
            Err(StoreError::NotFound) => r matches Ok(None),
            Err(_) => r is Err,
        },
{
    match read {
        Ok(sha) => Ok(Some(sha)),
        Err(StoreError::NotFound) => Ok(None),
        Err(e) => Err(e),
    }
}

} // verus!
