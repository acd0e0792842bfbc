//! The transfer manifest: which files a sender offers, under which
//! leaf names and sizes.
//!
//! Filenames that travel on the wire are always reduced to their final
//! path component first: a manifest never carries a path separator, so
//! a receiver joining a received name onto its download directory
//! cannot be led outside it.

use vstd::prelude::*;
use vstd::bytes::spec_u64_from_le_bytes;
use vstd::bytes::spec_u64_to_le_bytes;
use vstd::bytes::lemma_auto_spec_u64_to_from_le_bytes;
use vstd::bytes::u64_from_le_bytes;
use vstd::bytes::u64_to_le_bytes;
use vstd::string::StrSliceExecFns;
use vstd::utf8::encode_utf8;
use vstd::utf8::decode_utf8;
use vstd::utf8::valid_utf8;
use vstd::utf8::encode_utf8_valid_utf8;
use vstd::utf8::encode_utf8_decode_utf8;
use vstd::utf8::decode_utf8_encode_utf8;
use crate::errors::PortalError;
use crate::wire::copy_range;
use crate::wire::string_from_utf8;

verus! {

/// The final path component of a path, under the same rules the
/// standard library uses for file names: trailing separators are
/// ignored, a `.` component stands for its directory, and a path whose
/// last component is `..` (or that has no component at all) has no leaf
/// name.
pub open spec fn leaf_model(s: Seq<char>) -> Option<Seq<char>>
    decreases s.len(),
    via leaf_model_decreases
{
    let e = trimmed_end(s);
    if e == 0 {
        None
    } else {
        let st = comp_start(s, e);
        let comp = s.subrange(st, e);
        if comp == seq!['.', '.'] {
            None
        } else if comp == seq!['.'] {
            leaf_model(s.subrange(0, st))
        } else {
            Some(comp)
        }
    }
}

#[via_fn]
proof fn leaf_model_decreases(s: Seq<char>) {
    lemma_trimmed_end_bounds(s);
    let e = trimmed_end(s);
    if e > 0 {
        lemma_comp_start_bounds(s, e);
        let st = comp_start(s, e);
        let comp = s.subrange(st, e);
        if comp == seq!['.'] {
            assert(comp.len() == 1);
            assert(st == e - 1);
        }
    }
}

/// The length of `s` without its trailing run of separators.
pub open spec fn trimmed_end(s: Seq<char>) -> int
    decreases s.len(),
{
    if s.len() > 0 && s.last() == '/' {
        trimmed_end(s.drop_last())
    } else {
        s.len() as int
    }
}

/// The start of the path component that ends at `end`: the least index
/// from which no separator occurs before `end`.
pub open spec fn comp_start(s: Seq<char>, end: int) -> int
    decreases end,
{
    if end <= 0 {
        0
    } else if s[end - 1] == '/' {
        end
    } else {
        comp_start(s, end - 1)
    }
}

/// A file name fit for the wire: non-empty and free of separators.
pub open spec fn name_ok(name: Seq<char>) -> bool {
    name.len() > 0 && (forall|j: int| 0 <= j < name.len() ==> name[j] != '/')
}

proof fn lemma_trimmed_end_bounds(s: Seq<char>)
    ensures
        0 <= trimmed_end(s) <= s.len(),
        trimmed_end(s) > 0 ==> s[trimmed_end(s) - 1] != '/',
    decreases s.len(),
{
    if s.len() > 0 && s.last() == '/' {
        lemma_trimmed_end_bounds(s.drop_last());
    }
}

proof fn lemma_comp_start_bounds(s: Seq<char>, end: int)
    requires
        0 <= end <= s.len(),
    ensures
        0 <= comp_start(s, end) <= end,
        forall|j: int| comp_start(s, end) <= j < end ==> s[j] != '/',
    decreases end,
{
    if end > 0 && s[end - 1] != '/' {
        lemma_comp_start_bounds(s, end - 1);
    }
}

proof fn lemma_comp_start_prefix(s1: Seq<char>, s2: Seq<char>, end: int)
    requires
        0 <= end <= s2.len() <= s1.len(),
        forall|j: int| 0 <= j < s2.len() ==> s1[j] == s2[j],
    ensures
        comp_start(s1, end) == comp_start(s2, end),
    decreases end,
{
    if end > 0 && s1[end - 1] != '/' {
        lemma_comp_start_prefix(s1, s2, end - 1);
    }
}

/// A trailing separator never changes the leaf name.
proof fn lemma_leaf_drop_trailing_slash(s: Seq<char>)
    requires
        s.len() > 0,
        s.last() == '/',
    ensures
        leaf_model(s) == leaf_model(s.drop_last()),
{
    let short = s.drop_last();
    assert(trimmed_end(s) == trimmed_end(short));
    let e = trimmed_end(s);
    lemma_trimmed_end_bounds(short);
    if e > 0 {
        lemma_comp_start_prefix(s, short, e);
        let st = comp_start(s, e);
        assert(s.subrange(st, e) =~= short.subrange(st, e)) by {
            lemma_comp_start_bounds(short, e);
        }
        let comp = s.subrange(st, e);
        if comp == seq!['.'] {
            assert(s.subrange(0, st) =~= short.subrange(0, st)) by {
                lemma_comp_start_bounds(short, e);
            }
        }
    }
}

/// A leaf name, where there is one, is non-empty and carries no
/// separator: the path-traversal defense of the manifest.
pub proof fn lemma_leaf_name_ok(s: Seq<char>)
    ensures
        leaf_model(s) matches Some(name) ==> name_ok(name),
    decreases s.len(),
{
    let e = trimmed_end(s);
    lemma_trimmed_end_bounds(s);
    if e > 0 {
        let st = comp_start(s, e);
        lemma_comp_start_bounds(s, e);
        let comp = s.subrange(st, e);
        if comp == seq!['.', '.'] {
        } else if comp == seq!['.'] {
            assert(comp.len() == 1);
            assert(st == e - 1);
            lemma_leaf_name_ok(s.subrange(0, st));
        } else {
            assert(st < e) by {
                assert(s[e - 1] != '/');
                assert(st == comp_start(s, e - 1));
                lemma_comp_start_bounds(s, e - 1);
            }
            assert(comp.len() == e - st);
        }
    }
}

/// Reduce a path to its leaf file name, exactly as [`leaf_model`]
/// describes: `None` when the path has no usable final component.
pub fn leaf_name(path: &str) -> (r: Option<String>)
    ensures
        r matches Some(name) ==> leaf_model(path@) == Some(name@),
        r is None ==> leaf_model(path@) is None,
    decreases path@.len(),
{
    let ghost s = path@;
    let n = path.unicode_len();
    if n == 0 {
        return None;
    }
    if path.get_char(n - 1) == '/' {
        let trimmed = path.substring_char(0, n - 1);
        proof {
            lemma_leaf_drop_trailing_slash(s);
            assert(trimmed@ =~= s.drop_last());
        }
        return leaf_name(trimmed);
    }
    proof {
        assert(trimmed_end(s) == n);
    }
    let mut st: usize = n;
    while st > 0 && path.get_char(st - 1) != '/'
        invariant
            st <= n,
            n == s.len(),
            path@ == s,
            comp_start(s, n as int) == comp_start(s, st as int),
        decreases st,
    {
        st = st - 1;
    }
    proof {
        assert(comp_start(s, n as int) == st as int);
    }
    let comp = path.substring_char(st, n);
    let clen = n - st;
    if clen == 2 && comp.get_char(0) == '.' && comp.get_char(1) == '.' {
        proof {
            assert(comp@ =~= seq!['.', '.']);
        }
        None
    } else if clen == 1 && comp.get_char(0) == '.' {
        proof {
            assert(comp@ =~= seq!['.']);
        }
        let parent = path.substring_char(0, st);
        leaf_name(parent)
    } else {
        proof {
            assert(comp@ != seq!['.', '.']) by {
                if comp@ == seq!['.', '.'] {
                    assert(comp@.len() == 2);
                    assert(comp@[0] == '.' && comp@[1] == '.');
                }
            }
            assert(comp@ != seq!['.']) by {
                if comp@ == seq!['.'] {
                    assert(comp@.len() == 1);
                    assert(comp@[0] == '.');
                }
            }
        }
        Some(comp.to_owned())
    }
}

/// Metadata about one file of the transfer, exchanged between peers
/// after key derivation (encrypted).
#[derive(Debug, PartialEq, Eq)]
pub struct Metadata {
    pub filesize: u64,
    pub filename: String,
}

/// What the wire preserves of one file's metadata.
pub struct MetadataModel {
    pub filesize: u64,
    pub filename: Seq<char>,
}

impl Metadata {
    /// The mathematical shape of this metadata record.
    pub open spec fn model(&self) -> MetadataModel {
        MetadataModel { filesize: self.filesize, filename: self.filename@ }
    }

    /// Whether two records declare the same file: equal sizes and
    /// equal names, exactly when the records' models coincide.
    pub fn matches(&self, other: &Metadata) -> (r: bool)
        ensures
            r == (self.model() == other.model()),
    {
        let r = self.filesize == other.filesize && self.filename.eq(&other.filename);
        proof {
            if self.filesize == other.filesize && self.filename@ == other.filename@ {
                assert(self.model() == other.model());
            }
        }
        r
    }
}

/// The models of a list of metadata records.
pub open spec fn models_of(all: Seq<Metadata>) -> Seq<MetadataModel> {
    all.map_values(|m: Metadata| m.model())
}

/// Contains the metadata for all files that will be sent during a
/// particular transfer.
#[derive(Debug, PartialEq, Eq)]
pub struct TransferInfo {
    /// The metadata to send to the peer. These filenames are stripped
    /// of their path information.
    pub all: Vec<Metadata>,
    /// Internal state for a sender to locate files; never serialized.
    pub localpaths: Vec<String>,
}

impl TransferInfo {
    /// The manifest as the wire sees it.
    pub open spec fn manifest(&self) -> Seq<MetadataModel> {
        models_of(self.all@)
    }

    /// The sender's local paths, in step with the manifest.
    pub open spec fn paths(&self) -> Seq<Seq<char>> {
        self.localpaths@.map_values(|p: String| p@)
    }

    /// Every filename of the manifest is a bare leaf: non-empty and
    /// free of path separators.
    pub open spec fn wf(&self) -> bool {
        forall|i: int| 0 <= i < self.manifest().len() ==> name_ok(#[trigger] self.manifest()[i].filename)
    }

    /// An owned, empty transfer.
    pub fn empty() -> (r: TransferInfo)
        ensures
            r.wf(),
            r.manifest() =~= Seq::<MetadataModel>::empty(),
            r.paths() =~= Seq::<Seq<char>>::empty(),
    {
        let r = TransferInfo { all: Vec::new(), localpaths: Vec::new() };
        proof {
            assert(r.manifest() =~= Seq::<MetadataModel>::empty());
            assert(r.paths() =~= Seq::<Seq<char>>::empty());
        }
        r
    }

    /// Add a file to this transfer: remember where it lives locally and
    /// append a manifest entry carrying its size and bare leaf name. A
    /// path without a usable leaf name is rejected.
    pub fn add_file(&mut self, path: &str, filesize: u64) -> (r: Result<(), PortalError>)
        requires
            old(self).wf(),
        ensures
            final(self).wf(),
            r is Ok <==> leaf_model(path@) is Some,
            r matches Err(e) ==> e == PortalError::BadFileName && final(self).manifest() == old(self).manifest() && final(self).paths() == old(self).paths(),
            r is Ok ==> final(self).manifest() =~= old(self).manifest().push(
                MetadataModel { filesize, filename: leaf_model(path@).unwrap() },
            ) && final(self).paths() =~= old(self).paths().push(path@),
    {
        match leaf_name(path) {
            Some(name) => {
                self.localpaths.push(path.to_owned());
                self.all.push(Metadata { filesize, filename: name });
                proof {
                    lemma_leaf_name_ok(path@);
                    assert(self.manifest() =~= old(self).manifest().push(
                        MetadataModel { filesize, filename: leaf_model(path@).unwrap() },
                    ));
                    assert(self.paths() =~= old(self).paths().push(path@));
                }
                Ok(())
            },
            None => Err(PortalError::BadFileName),
        }
    }
}

/// The byte encoding of one metadata record: file size, then the byte
/// length of the UTF-8 name, then the name, all integers little-endian.
pub open spec fn encode_metadata_model(m: MetadataModel) -> Seq<u8> {
    spec_u64_to_le_bytes(m.filesize) + spec_u64_to_le_bytes(
        encode_utf8(m.filename).len() as u64,
    ) + encode_utf8(m.filename)
}

/// The size a metadata record must respect so that its encoding parses
/// back.
pub open spec fn metadata_model_wf(m: MetadataModel) -> bool {
    encode_utf8(m.filename).len() < 0x10000000000000000
}

/// Parse one metadata record from the front of a byte string.
pub open spec fn parse_metadata_model(b: Seq<u8>) -> Option<(MetadataModel, int)> {
    if b.len() < 16 {
        None
    } else {
        let size = spec_u64_from_le_bytes(b.subrange(0, 8));
        let n = spec_u64_from_le_bytes(b.subrange(8, 16)) as int;
        if b.len() < 16 + n {
            None
        } else {
            let nb = b.subrange(16, 16 + n);
            if valid_utf8(nb) {
                Some((MetadataModel { filesize: size, filename: decode_utf8(nb) }, 16 + n))
            } else {
                None
            }
        }
    }
}

/// Parsing one metadata record inverts encoding it, whatever follows.
pub proof fn lemma_parse_metadata_of_encode(m: MetadataModel, rest: Seq<u8>)
    requires
        metadata_model_wf(m),
    ensures
        parse_metadata_model(encode_metadata_model(m) + rest) == Some(
            (m, encode_metadata_model(m).len() as int),
        ),
{
    lemma_auto_spec_u64_to_from_le_bytes();
    broadcast use encode_utf8_valid_utf8;
    broadcast use encode_utf8_decode_utf8;

    let name = encode_utf8(m.filename);
    let e = encode_metadata_model(m);
    let b = e + rest;
    let n = name.len() as int;
    assert(b.subrange(0, 8) =~= spec_u64_to_le_bytes(m.filesize));
    assert(b.subrange(8, 16) =~= spec_u64_to_le_bytes(name.len() as u64));
    assert(b.subrange(16, 16 + n) =~= name);
    assert(e.len() == 16 + n);
    assert(decode_utf8(name) == m.filename);
}

/// The concatenated encodings of a list of metadata records.
pub open spec fn encode_metadata_list(ms: Seq<MetadataModel>) -> Seq<u8>
    decreases ms.len(),
{
    if ms.len() == 0 {
        Seq::<u8>::empty()
    } else {
        encode_metadata_model(ms[0]) + encode_metadata_list(ms.drop_first())
    }
}

/// Appending a record to a list appends its encoding.
pub proof fn lemma_encode_metadata_list_push(ms: Seq<MetadataModel>, m: MetadataModel)
    ensures
        encode_metadata_list(ms.push(m)) == encode_metadata_list(ms) + encode_metadata_model(m),
    decreases ms.len(),
{
    if ms.len() == 0 {
        assert(ms.push(m).drop_first() =~= Seq::<MetadataModel>::empty());
        assert(ms.push(m)[0] == m);
        assert(encode_metadata_list(Seq::<MetadataModel>::empty()) =~= Seq::<u8>::empty());
        assert(encode_metadata_list(ms.push(m)) =~= encode_metadata_model(m));
        assert(encode_metadata_list(ms) + encode_metadata_model(m) =~= encode_metadata_model(m));
    } else {
        assert(ms.push(m).drop_first() =~= ms.drop_first().push(m));
        lemma_encode_metadata_list_push(ms.drop_first(), m);
        assert(encode_metadata_list(ms.push(m)) =~= encode_metadata_list(ms)
            + encode_metadata_model(m));
    }
}

/// Parse `k` consecutive metadata records from the front of a byte
/// string: the records and how many bytes they occupied together.
pub open spec fn parse_metadata_list(b: Seq<u8>, k: nat) -> Option<(Seq<MetadataModel>, int)>
    decreases k,
{
    if k == 0 {
        Some((Seq::<MetadataModel>::empty(), 0))
    } else {
        match parse_metadata_model(b) {
            Some((m, n)) => match parse_metadata_list(
                b.subrange(n, b.len() as int),
                (k - 1) as nat,
            ) {
                Some((ms, n2)) => Some((seq![m] + ms, n + n2)),
                None => None,
            },
            None => None,
        }
    }
}

/// The byte encoding of a whole manifest: the record count, then the
/// records.
pub open spec fn encode_manifest_model(ms: Seq<MetadataModel>) -> Seq<u8> {
    spec_u64_to_le_bytes(ms.len() as u64) + encode_metadata_list(ms)
}

/// The sizes a manifest must respect so that its encoding parses back.
pub open spec fn manifest_model_wf(ms: Seq<MetadataModel>) -> bool {
    ms.len() < 0x10000000000000000 && (forall|i: int|
        0 <= i < ms.len() ==> metadata_model_wf(#[trigger] ms[i]))
}

/// Parse a whole manifest from the front of a byte string.
pub open spec fn parse_manifest_model(b: Seq<u8>) -> Option<(Seq<MetadataModel>, int)> {
    if b.len() < 8 {
        None
    } else {
        let k = spec_u64_from_le_bytes(b.subrange(0, 8));
        match parse_metadata_list(b.subrange(8, b.len() as int), k as nat) {
            Some((ms, n)) => Some((ms, 8 + n)),
            None => None,
        }
    }
}

/// Parsing a list of records inverts encoding it, whatever follows.
pub proof fn lemma_parse_metadata_list_of_encode(ms: Seq<MetadataModel>, rest: Seq<u8>)
    requires
        forall|i: int| 0 <= i < ms.len() ==> metadata_model_wf(#[trigger] ms[i]),
    ensures
        parse_metadata_list(encode_metadata_list(ms) + rest, ms.len() as nat) == Some(
            (ms, encode_metadata_list(ms).len() as int),
        ),
    decreases ms.len(),
{
    if ms.len() == 0 {
        assert(parse_metadata_list(encode_metadata_list(ms) + rest, 0) == Some(
            (Seq::<MetadataModel>::empty(), 0int),
        ));
        assert(ms =~= Seq::<MetadataModel>::empty());
        assert(encode_metadata_list(ms).len() == 0);
    } else {
        let head = ms[0];
        let tail = ms.drop_first();
        let eh = encode_metadata_model(head);
        let et = encode_metadata_list(tail);
        let b = encode_metadata_list(ms) + rest;
        assert(b =~= eh + (et + rest));
        lemma_parse_metadata_of_encode(head, et + rest);
        assert(parse_metadata_model(b) == Some((head, eh.len() as int)));
        assert(b.subrange(eh.len() as int, b.len() as int) =~= et + rest);
        lemma_parse_metadata_list_of_encode(tail, rest);
        assert(seq![head] + tail =~= ms);
    }
}

/// Serialize-then-parse yields the same manifest: the round-trip law of
/// the manifest encoding, whatever follows it on the wire.
pub proof fn lemma_parse_manifest_of_encode(ms: Seq<MetadataModel>, rest: Seq<u8>)
    requires
        manifest_model_wf(ms),
    ensures
        parse_manifest_model(encode_manifest_model(ms) + rest) == Some(
            (ms, encode_manifest_model(ms).len() as int),
        ),
{
    lemma_auto_spec_u64_to_from_le_bytes();
    let b = encode_manifest_model(ms) + rest;
    assert(b.subrange(0, 8) =~= spec_u64_to_le_bytes(ms.len() as u64));
    assert(b.subrange(8, b.len() as int) =~= encode_metadata_list(ms) + rest);
    lemma_parse_metadata_list_of_encode(ms, rest);
}

impl Metadata {
    /// Encode this record into its wire bytes.
    pub fn serialize(&self) -> (r: Vec<u8>)
        ensures
            r@ == encode_metadata_model(self.model()),
    {
        let mut out = u64_to_le_bytes(self.filesize);
        let name_bytes = self.filename.as_str().as_bytes_vec();
        let mut len_bytes = u64_to_le_bytes(name_bytes.len() as u64);
        out.append(&mut len_bytes);
        let mut name_owned = name_bytes;
        out.append(&mut name_owned);
        proof {
            assert(out@ =~= encode_metadata_model(self.model()));
        }
        out
    }

    /// Parse one record from the front of `data`, returning it together
    /// with the number of bytes it occupied; trailing bytes are
    /// ignored.
    pub fn parse_prefix(data: &[u8]) -> (r: Result<(Metadata, usize), PortalError>)
        ensures
            r matches Ok(p) ==> parse_metadata_model(data@) == Some((p.0.model(), p.1 as int)),
            r is Err ==> parse_metadata_model(data@) is None && r == Err::<
                (Metadata, usize),
                PortalError,
            >(PortalError::BadMsg),
    {
        proof {
            lemma_auto_spec_u64_to_from_le_bytes();
        }
        if data.len() < 16 {
            return Err(PortalError::BadMsg);
        }
        let size_bytes = copy_range(data, 0, 8);
        let filesize = u64_from_le_bytes(size_bytes.as_slice());
        let len_bytes = copy_range(data, 8, 16);
        let n64 = u64_from_le_bytes(len_bytes.as_slice());
        if n64 > u64::MAX - 16 {
            return Err(PortalError::BadMsg);
        }
        if (data.len() as u64) < n64 + 16 {
            return Err(PortalError::BadMsg);
        }
        let n = n64 as usize;
        let name_bytes = copy_range(data, 16, 16 + n);
        proof {
            broadcast use decode_utf8_encode_utf8;

        }
        match string_from_utf8(name_bytes) {
            Some(filename) => Ok((Metadata { filesize, filename }, 16 + n)),
            None => Err(PortalError::BadMsg),
        }
    }
}

impl TransferInfo {
    /// Encode the manifest into its wire bytes. Local paths never leave
    /// the sender: only the count, sizes and leaf names are encoded.
    pub fn serialize(&self) -> (r: Vec<u8>)
        ensures
            r@ == encode_manifest_model(self.manifest()),
    {
        let ghost ms = self.manifest();
        let mut out = u64_to_le_bytes(self.all.len() as u64);
        let mut i: usize = 0;
        proof {
            assert(ms.take(0) =~= Seq::<MetadataModel>::empty());
        }
        while i < self.all.len()
            invariant
                i <= self.all@.len(),
                ms == self.manifest(),
                ms.len() == self.all@.len(),
                out@ == spec_u64_to_le_bytes(self.all@.len() as u64) + encode_metadata_list(
                    ms.take(i as int),
                ),
            decreases self.all@.len() - i,
        {
            let mut entry = self.all[i].serialize();
            out.append(&mut entry);
            proof {
                assert(ms.take(i + 1) =~= ms.take(i as int).push(ms[i as int]));
                lemma_encode_metadata_list_push(ms.take(i as int), ms[i as int]);
                assert(out@ =~= spec_u64_to_le_bytes(self.all@.len() as u64)
                    + encode_metadata_list(ms.take(i + 1)));
            }
            i = i + 1;
        }
        proof {
            assert(ms.take(ms.len() as int) =~= ms);
        }
        out
    }

    /// Parse a manifest from the front of `data`; trailing bytes are
    /// ignored, and the local-path list of the result is empty.
    pub fn parse(data: &[u8]) -> (r: Result<TransferInfo, PortalError>)
        ensures
            r matches Ok(info) ==> (parse_manifest_model(data@) matches Some(p) && p.0
                == info.manifest()) && info.paths() =~= Seq::<Seq<char>>::empty(),
            r is Err ==> parse_manifest_model(data@) is None && r == Err::<
                TransferInfo,
                PortalError,
            >(PortalError::BadMsg),
    {
        proof {
            lemma_auto_spec_u64_to_from_le_bytes();
        }
        if data.len() < 8 {
            return Err(PortalError::BadMsg);
        }
        let count_bytes = copy_range(data, 0, 8);
        let k = u64_from_le_bytes(count_bytes.as_slice());
        let ghost body = data@.subrange(8, data@.len() as int);
        let mut all: Vec<Metadata> = Vec::new();
        let mut pos: usize = 8;
        let mut i: u64 = 0;
        while i < k
            invariant
                8 <= pos <= data@.len(),
                i <= k,
                models_of(all@).len() == i,
                k == spec_u64_from_le_bytes(data@.subrange(0, 8)),
                body == data@.subrange(8, data@.len() as int),
                match parse_metadata_list(
                    data@.subrange(pos as int, data@.len() as int),
                    (k - i) as nat,
                ) {
                    Some(p) => parse_metadata_list(body, k as nat) == Some(
                        (models_of(all@) + p.0, pos - 8 + p.1),
                    ),
                    None => parse_metadata_list(body, k as nat) is None,
                },
            decreases k - i,
        {
            let rem = copy_range(data, pos, data.len());
            let ghost rems = data@.subrange(pos as int, data@.len() as int);
            match Metadata::parse_prefix(rem.as_slice()) {
                Ok((m, consumed)) => {
                    proof {
                        assert(parse_metadata_model(rems) == Some((m.model(), consumed as int)));
                        assert(consumed <= rems.len());
                        assert(rems.subrange(consumed as int, rems.len() as int) =~= data@.subrange(
                            pos + consumed,
                            data@.len() as int,
                        ));
                    }
                    let ghost old_all = all@;
                    all.push(m);
                    proof {
                        assert(models_of(all@) =~= models_of(old_all).push(m.model()));
                        assert forall|p2: (Seq<MetadataModel>, int)|
                            parse_metadata_list(
                                data@.subrange(pos + consumed, data@.len() as int),
                                (k - i - 1) as nat,
                            ) == Some(p2) implies models_of(old_all) + (seq![m.model()] + p2.0)
                            =~= models_of(all@) + p2.0 by {}
                    }
                    pos = pos + consumed;
                    i = i + 1;
                },
                Err(_) => {
                    return Err(PortalError::BadMsg);
                },
            }
        }
        proof {
            assert(parse_metadata_list(data@.subrange(pos as int, data@.len() as int), 0) == Some(
                (Seq::<MetadataModel>::empty(), 0int),
            ));
            assert(models_of(all@) + Seq::<MetadataModel>::empty() =~= models_of(all@));
        }
        let info = TransferInfo { all, localpaths: Vec::new() };
        proof {
            assert(info.paths() =~= Seq::<Seq<char>>::empty());
        }
        Ok(info)
    }
}

/// Builder for [`TransferInfo`].
#[derive(Debug)]
pub struct TransferInfoBuilder(TransferInfo);

impl Default for TransferInfoBuilder {
    /// An empty builder, as [`TransferInfoBuilder::new`] gives.
    fn default() -> (r: TransferInfoBuilder)
        ensures
            r.wf(),
            r.manifest() =~= Seq::<MetadataModel>::empty(),
            r.paths() =~= Seq::<Seq<char>>::empty(),
    {
        TransferInfoBuilder::new()
    }
}

impl TransferInfoBuilder {
    /// The manifest collected so far.
    pub closed spec fn manifest(&self) -> Seq<MetadataModel> {
        self.0.manifest()
    }

    /// The local paths collected so far.
    pub closed spec fn paths(&self) -> Seq<Seq<char>> {
        self.0.paths()
    }

    /// The collected manifest holds only bare leaf names.
    pub closed spec fn wf(&self) -> bool {
        self.0.wf()
    }

    /// Start collecting a transfer.
    pub fn new() -> (r: TransferInfoBuilder)
        ensures
            r.wf(),
            r.manifest() =~= Seq::<MetadataModel>::empty(),
            r.paths() =~= Seq::<Seq<char>>::empty(),
    {
        TransferInfoBuilder(TransferInfo::empty())
    }

    /// Add one file, passing the builder through.
    pub fn add_file(self, path: &str, filesize: u64) -> (r: Result<TransferInfoBuilder, PortalError>)
        requires
            self.wf(),
        ensures
            r matches Ok(b) ==> b.wf() && leaf_model(path@) is Some && b.manifest()
                =~= self.manifest().push(
                MetadataModel { filesize, filename: leaf_model(path@).unwrap() },
            ) && b.paths() =~= self.paths().push(path@),
            r matches Err(e) ==> e == PortalError::BadFileName && leaf_model(path@) is None,
    {
        let mut inner = self.0;
        match inner.add_file(path, filesize) {
            Ok(()) => Ok(TransferInfoBuilder(inner)),
            Err(e) => Err(e),
        }
    }

    /// Finalize the builder into a [`TransferInfo`] object.
    pub fn finalize(self) -> (r: TransferInfo)
        requires
            self.wf(),
        ensures
            r.wf(),
            r.manifest() == self.manifest(),
            r.paths() == self.paths(),
    {
        self.0
    }
}

} // verus!
