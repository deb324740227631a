//! Capsules: distributable executable bundles.
//!
//! A capsule is a container file bundling raw bytecode with a provenance
//! hash (content identity, always present) and an optional detached
//! signature.  The container's binary layout and its cryptography are the
//! vsf crate's; this module owns the lifecycle: build re-parses the
//! bytecode into discrete values and stores them as one multi-valued field
//! in one named section; load re-derives the flat byte stream from the
//! stored values; trust is established only by a separate verify step —
//! loading never implies trust.

use vstd::prelude::*;
use vstd::string::StringExecFns;

use crate::errors::CapsuleError;
use crate::wire::{lemma_parse_local, lemma_parse_progress, parse_value, spec_parse};

verus! {

broadcast use vstd::std_specs::vec::axiom_spec_len;

/// The models of a sequence of byte vectors.
pub open spec fn bviews(s: Seq<Vec<u8>>) -> Seq<Seq<u8>> {
    s.map_values(|c: Vec<u8>| c@)
}

/// A valid bytecode stream split into the byte spans of its values: each
/// chunk is exactly the bytes one value occupies, in order; `None` where
/// some suffix decodes as no value.
pub open spec fn spec_chunks(data: Seq<u8>, pos: int) -> Option<Seq<Seq<u8>>>
    decreases data.len() - pos,
    when 0 <= pos
    via spec_chunks_decreases
{
    if pos >= data.len() {
        Some(Seq::empty())
    } else {
        match spec_parse(data, pos) {
            None => None,
            Some((_, p2)) => match spec_chunks(data, p2) {
                None => None,
                Some(rest) => Some(seq![data.subrange(pos, p2)] + rest),
            },
        }
    }
}

#[via_fn]
proof fn spec_chunks_decreases(data: Seq<u8>, pos: int) {
    lemma_parse_progress(data, pos);
}

/// The concatenation of a sequence of byte spans.
pub open spec fn concat_bytes(chunks: Seq<Seq<u8>>) -> Seq<u8>
    decreases chunks.len(),
{
    if chunks.len() == 0 {
        Seq::empty()
    } else {
        chunks[0] + concat_bytes(chunks.drop_first())
    }
}

/// Law, the heart of the capsule round trip: splitting a valid bytecode
/// stream into its value spans loses nothing — the spans concatenate back
/// to the stream, byte for byte.
pub proof fn lemma_chunks_concat(data: Seq<u8>, pos: int, chunks: Seq<Seq<u8>>)
    requires
        0 <= pos <= data.len(),
        spec_chunks(data, pos) == Some(chunks),
    ensures
        concat_bytes(chunks) == data.subrange(pos, data.len() as int),
    decreases data.len() - pos,
{
    if pos >= data.len() {
        assert(concat_bytes(chunks) =~= data.subrange(pos, data.len() as int));
    } else {
        match spec_parse(data, pos) {
            None => {},
            Some((t, p2)) => {
                lemma_parse_progress(data, pos);
                let rest = spec_chunks(data, p2)->Some_0;
                lemma_chunks_concat(data, p2, rest);
                assert(chunks.drop_first() =~= rest);
                assert(concat_bytes(chunks) =~= data.subrange(pos, data.len() as int));
            },
        }
    }
}

/// Law, capsule round trip: for any valid bytecode, what the builder
/// splits off and the loader concatenates back is the bytecode itself, byte
/// for byte.  With the builder's and the loader's contracts, loading a
/// built capsule therefore returns exactly what was built from.
pub proof fn lemma_capsule_round_trip(bytecode: Seq<u8>, chunks: Seq<Seq<u8>>)
    requires
        spec_chunks(bytecode, 0) == Some(chunks),
    ensures
        concat_bytes(chunks) == bytecode,
{
    lemma_chunks_concat(bytecode, 0, chunks);
    assert(bytecode.subrange(0, bytecode.len() as int) =~= bytecode);
}

/// One canonical value span: bytes that decode as exactly one wire value,
/// consuming the whole span.
pub open spec fn chunk_wf(chunk: Seq<u8>) -> bool {
    spec_parse(chunk, 0) matches Some(r) && r.1 == chunk.len()
}

/// Whether every chunk is one canonical value span.
pub open spec fn chunks_wf(chunks: Seq<Seq<u8>>) -> bool {
    forall|i: int| 0 <= i < chunks.len() ==> #[trigger] chunk_wf(chunks[i])
}

/// Law: the spans a valid bytecode stream splits into are each one
/// canonical value span.
pub proof fn lemma_chunks_wf(data: Seq<u8>, pos: int)
    requires
        0 <= pos,
    ensures
        spec_chunks(data, pos) matches Some(ch) ==> chunks_wf(ch),
    decreases data.len() - pos,
{
    if pos < data.len() {
        match spec_parse(data, pos) {
            None => {},
            Some(rr) => {
                lemma_parse_progress(data, pos);
                lemma_parse_local(data, pos);
                match spec_chunks(data, rr.1) {
                    None => {},
                    Some(rest) => {
                        lemma_chunks_wf(data, rr.1);
                        let ch = spec_chunks(data, pos)->Some_0;
                        assert(chunk_wf(data.subrange(pos, rr.1)));
                        assert(forall|i: int| 0 <= i < ch.len() ==> #[trigger] chunk_wf(ch[i]))
                            by {
                            assert(forall|i: int| 1 <= i < ch.len() ==> ch[i] == rest[i - 1]);
                        }
                    },
                }
            },
        }
    }
}

/// A section or field name the wire codec's writer accepts without
/// complaint: nonempty, lowercase ASCII letters throughout.  (A deliberate
/// subset of the codec's own naming rule, which further admits digits and
/// interior dots and underscores.)
pub open spec fn wire_name_ok(s: Seq<char>) -> bool {
    s.len() > 0 && forall|i: int| 0 <= i < s.len() ==> 'a' <= #[trigger] s[i] <= 'z'
}

/// The container bytes the wire codec serializes for one section of the
/// given name holding one multi-valued field of the given name whose values
/// are the given byte spans, with the given signature descriptor; `None`
/// where the codec refuses the arguments (a span its parser has no type
/// for, or a serialization fault).
pub uninterp spec fn capsule_encoding_of(
    section: Seq<char>,
    field: Seq<char>,
    chunks: Seq<Seq<u8>>,
    signed: bool,
    pubkey: Seq<u8>,
    signature: Seq<u8>,
) -> Option<Seq<u8>>;

/// Whether the container reader accepts these bytes: header, first section
/// and first field all readable.
pub uninterp spec fn container_readable(data: Seq<u8>) -> bool;

/// Whether a container's embedded integrity hash matches its bytes.
pub uninterp spec fn integrity_ok(data: Seq<u8>) -> bool;

/// A signed container's signature status: valid, invalid, or structurally
/// unreadable.
pub uninterp spec fn signature_status_of(data: Seq<u8>) -> Option<bool>;

/// What a container decodes back into.
#[derive(Debug)]
pub struct CapsuleParts {
    /// The section's name.
    pub section: String,
    /// The field's name.
    pub field: String,
    /// The byte encoding of each stored value, in order.
    pub chunks: Vec<Vec<u8>>,
    /// The provenance hash held in the header.
    pub provenance: Vec<u8>,
    /// Whether the header carries a signature descriptor.
    pub signed: bool,
}

/// Relies on vsf's `VsfBuilder`, `VsfSection::add_field_multi` and
/// `decoding::parse`: serializes one section of the given name with one
/// multi-valued field of the given name whose values are the given spans,
/// re-parsed through the wire codec; attaches the signature descriptor when
/// `signed`; always embeds a provenance hash, and for an unsigned file an
/// integrity hash that matches the produced bytes.  Whether it succeeds and
/// what it produces are functions of the arguments alone (the builder sets
/// no timestamp).  The preconditions keep the call total: the writer treats
/// an invalid section or field name as a caller fault, and on a canonical
/// value span the codec's parser reads within bounds.
#[verifier::external_body]
fn vsf_capsule_encode(
    section: &String,
    field: &String,
    chunks: &Vec<Vec<u8>>,
    signed: bool,
    pubkey: &[u8; 32],
    signature: &[u8; 64],
) -> (r: Result<Vec<u8>, ()>)
    requires
        wire_name_ok(section@),
        wire_name_ok(field@),
        chunks_wf(bviews(chunks@)),
    ensures
        match r {
            Ok(b) => capsule_encoding_of(
                section@,
                field@,
                bviews(chunks@),
                signed,
                pubkey@,
                signature@,
            ) == Some(b@),
            Err(_) => capsule_encoding_of(
                section@,
                field@,
                bviews(chunks@),
                signed,
                pubkey@,
                signature@,
            ) is None,
        },
        r matches Ok(b) ==> !signed ==> integrity_ok(b@),
{
    let values: Result<Vec<vsf::types::VsfType>, ()> = chunks.iter().map(|c| {
        let mut p: usize = 0;
        vsf::decoding::parse(c, &mut p).map_err(|_| ())
    }).collect();
    let mut sec = vsf::file_format::VsfSection::new(section.as_str());
    sec.add_field_multi(field.as_str(), values?);
    let mut builder = vsf::VsfBuilder::new().add_section_direct(sec);
    if signed {
        builder = builder.signature_ed25519(*pubkey, *signature);
    }
    builder.build().map_err(|_| ())
}

/// Relies on vsf's `VsfHeader::decode`, `VsfHeader::primary_section` and
/// `VsfType::flatten`: reads the header's provenance hash and signature
/// descriptor, the first section the table of contents names, its first
/// field, and each stored value re-serialized to its byte encoding.  On the
/// writer's own output for canonical value spans this recovers exactly what
/// was stored: the codec re-serializes each stored value to the canonical
/// encoding, which is the span the writer was given.
#[verifier::external_body]
fn vsf_capsule_decode(data: &Vec<u8>) -> (r: Result<CapsuleParts, CapsuleError>)
    ensures
        match r {
            Ok(parts) => container_readable(data@) && forall|
                section: Seq<char>,
                field: Seq<char>,
                chunks: Seq<Seq<u8>>,
                signed: bool,
                pk: Seq<u8>,
                sg: Seq<u8>,
            |
                chunks_wf(chunks) && #[trigger] capsule_encoding_of(
                    section,
                    field,
                    chunks,
                    signed,
                    pk,
                    sg,
                ) == Some(data@) ==> parts.section@ == section && parts.field@ == field && bviews(
                    parts.chunks@,
                ) == chunks && parts.signed == signed && parts.provenance@.len() == 32,
            Err(_) => !container_readable(data@) && forall|
                section: Seq<char>,
                field: Seq<char>,
                chunks: Seq<Seq<u8>>,
                signed: bool,
                pk: Seq<u8>,
                sg: Seq<u8>,
            |
                chunks_wf(chunks) ==> #[trigger] capsule_encoding_of(
                    section,
                    field,
                    chunks,
                    signed,
                    pk,
                    sg,
                ) != Some(data@),
        },
{
    let (header, header_end) = vsf::file_format::VsfHeader::decode(data)
        .map_err(|_| CapsuleError::MalformedHeader)?;
    let sec = header.primary_section(data, header_end)
        .map_err(|_| CapsuleError::MissingSection)?;
    let fld = sec.fields.first().ok_or(CapsuleError::MalformedField)?;
    let vsf::types::VsfType::hp(provenance) = header.provenance_hash else {
        return Err(CapsuleError::MalformedHeader);
    };
    Ok(CapsuleParts {
        section: sec.name.clone(),
        field: fld.name.clone(),
        chunks: fld.values.iter().map(|v| v.flatten()).collect(),
        provenance,
        signed: header.signature.is_some(),
    })
}

/// Relies on vsf's `verification::is_original`: recomputes the BLAKE3
/// provenance hash over the bytes and compares it with the embedded one; a
/// function of the bytes alone.  Admitted only on bytes the container
/// reader has accepted, where the verifier's walk re-reads the same header
/// fields within the same bounds.
#[verifier::external_body]
fn vsf_integrity_check(data: &Vec<u8>) -> (r: bool)
    requires
        container_readable(data@),
    ensures
        r == integrity_ok(data@),
{
    vsf::verification::is_original(data).is_ok()
}

/// Relies on vsf's `verification::verify_file_signature`: checks the
/// embedded Ed25519 signature over the file's hash against the embedded
/// public key; a function of the bytes alone.  `None` where the file's
/// signature fields cannot be read at all.  Admitted only on bytes the
/// container reader has accepted, where the verifier's scan re-reads the
/// same header fields within the same bounds.
#[verifier::external_body]
fn vsf_signature_check(data: &Vec<u8>) -> (r: Option<bool>)
    requires
        container_readable(data@),
    ensures
        r == signature_status_of(data@),
{
    vsf::verification::verify_file_signature(data).ok()
}

/// Mathematical model of a [`CapsuleBuilder`].
pub struct BuilderV {
    /// The raw bytecode handed in.
    pub bytecode: Seq<u8>,
    /// Whether a signature descriptor was attached.
    pub signed: bool,
    /// The signer's public key, all zero until one is attached.
    pub pubkey: Seq<u8>,
    /// The detached signature, all zero until one is attached.
    pub signature: Seq<u8>,
}

/// Builder for capsule files: bytecode in, serialized container out.
#[derive(Debug)]
pub struct CapsuleBuilder {
    bytecode: Vec<u8>,
    pubkey: [u8; 32],
    signature: [u8; 64],
    signed: bool,
}

impl View for CapsuleBuilder {
    type V = BuilderV;

    closed spec fn view(&self) -> BuilderV {
        BuilderV {
            bytecode: self.bytecode@,
            signed: self.signed,
            pubkey: self.pubkey@,
            signature: self.signature@,
        }
    }
}

impl CapsuleBuilder {
    /// A builder over raw bytecode, unsigned.
    pub fn new(bytecode: Vec<u8>) -> (r: CapsuleBuilder)
        ensures
            r@.bytecode == bytecode@,
            !r@.signed,
    {
        CapsuleBuilder { bytecode, pubkey: [0; 32], signature: [0; 64], signed: false }
    }

    /// Attach a detached signature: the signer's public key and the
    /// signature bytes; the capsule then carries both.
    pub fn sign(self, pubkey: [u8; 32], signature: [u8; 64]) -> (r: CapsuleBuilder)
        ensures
            r@ == (BuilderV {
                signed: true,
                pubkey: pubkey@,
                signature: signature@,
                ..self@
            }),
    {
        CapsuleBuilder { bytecode: self.bytecode, pubkey, signature, signed: true }
    }

    /// Serialize the capsule.  The bytecode is split into the byte spans of
    /// its values, which the container stores as one multi-valued field in
    /// one section; bytecode that does not parse as a sequence of wire
    /// values is rejected, naming the offset at which parsing stopped.  For
    /// bytecode that does parse, success is exactly the wire codec's: the
    /// result is the codec's serialization of the spans whenever the codec
    /// has one, and the serialization fault otherwise.
    pub fn build(self) -> (r: Result<Vec<u8>, CapsuleError>)
        ensures
            spec_chunks(self@.bytecode, 0) is None ==> (r matches Err(e) && e matches
                CapsuleError::MalformedBytecode(_)),
            (match (spec_chunks(self@.bytecode, 0), r) {
                (Some(ch), Ok(b)) => capsule_encoding_of(
                    "toka"@,
                    "main"@,
                    ch,
                    self@.signed,
                    self@.pubkey,
                    self@.signature,
                ) == Some(b@),
                (Some(ch), Err(e)) => e == CapsuleError::BuildFailed && capsule_encoding_of(
                    "toka"@,
                    "main"@,
                    ch,
                    self@.signed,
                    self@.pubkey,
                    self@.signature,
                ) is None,
                _ => true,
            }),
            r matches Ok(b) ==> !self@.signed ==> integrity_ok(b@),
    {
        let mut chunks: Vec<Vec<u8>> = Vec::new();
        let mut pos: usize = 0;
        while pos < self.bytecode.len()
            invariant
                spec_chunks(self@.bytecode, 0) == (match spec_chunks(self@.bytecode, pos as int) {
                    Some(rest) => Some(bviews(chunks@) + rest),
                    None => None::<Seq<Seq<u8>>>,
                }),
            decreases self.bytecode.len() - pos,
        {
            let ghost chunks0 = chunks@;
            match parse_value(&self.bytecode, pos) {
                None => {
                    return Err(CapsuleError::MalformedBytecode(pos));
                },
                Some((_, p2)) => {
                    let mut span: Vec<u8> = Vec::new();
                    let mut i: usize = pos;
                    while i < p2
                        invariant
                            pos <= i <= p2 <= self.bytecode.len(),
                            span@ =~= self@.bytecode.subrange(pos as int, i as int),
                        decreases p2 - i,
                    {
                        span.push(self.bytecode[i]);
                        i = i + 1;
                    }
                    proof {
                        assert(span@ =~= self@.bytecode.subrange(pos as int, p2 as int));
                    }
                    let ghost gspan = span@;
                    chunks.push(span);
                    proof {
                        assert(bviews(chunks@) =~= bviews(chunks0).push(gspan));
                        match spec_chunks(self@.bytecode, p2 as int) {
                            Some(rest) => {
                                assert(bviews(chunks@) + rest =~= bviews(chunks0) + (seq![gspan]
                                    + rest));
                            },
                            None => {},
                        }
                    }
                    pos = p2;
                },
            }
        }
        proof {
            assert(bviews(chunks@) + Seq::<Seq<u8>>::empty() =~= bviews(chunks@));
            lemma_chunks_wf(self@.bytecode, 0);
        }
        let section: String = String::from_str("toka");
        let field: String = String::from_str("main");
        proof {
            reveal_strlit("toka");
            reveal_strlit("main");
            assert(wire_name_ok("toka"@));
            assert(wire_name_ok("main"@));
        }
        match vsf_capsule_encode(&section, &field, &chunks, self.signed, &self.pubkey, &self.signature) {
            Ok(bytes) => Ok(bytes),
            Err(_) => Err(CapsuleError::BuildFailed),
        }
    }
}

/// Mathematical model of a loaded [`Capsule`].
pub struct CapsuleV {
    /// The container file's raw bytes, kept for verification.
    pub raw: Seq<u8>,
    /// The flat bytecode re-derived from the stored values.
    pub bytecode: Seq<u8>,
    /// The provenance hash: the content's identity.
    pub provenance: Seq<u8>,
    /// Whether the container carries a signature descriptor.
    pub is_signed: bool,
}

/// A loaded capsule, immutable once loaded.  Loading never implies trust:
/// only [`Capsule::verify`] does.
#[derive(Debug)]
pub struct Capsule {
    raw: Vec<u8>,
    bytecode: Vec<u8>,
    provenance: Vec<u8>,
    is_signed: bool,
}

impl View for Capsule {
    type V = CapsuleV;

    closed spec fn view(&self) -> CapsuleV {
        CapsuleV {
            raw: self.raw@,
            bytecode: self.bytecode@,
            provenance: self.provenance@,
            is_signed: self.is_signed,
        }
    }
}

impl Capsule {
    /// Invariant of every loaded capsule: its raw bytes are a container the
    /// reader has accepted, so the verification walkers stay on read
    /// ground.
    #[verifier::type_invariant]
    spec fn inv(&self) -> bool {
        container_readable(self.raw@)
    }
}

impl Capsule {
    /// Load a capsule from container bytes: read the header, find the
    /// engine's section and its one field, and concatenate the stored
    /// values' byte encodings back into the flat bytecode.  On a container
    /// the builder produced, the bytecode comes back byte-for-byte.
    pub fn load(data: &Vec<u8>) -> (r: Result<Capsule, CapsuleError>)
        ensures
            forall|chunks: Seq<Seq<u8>>, signed: bool, pk: Seq<u8>, sg: Seq<u8>|
                chunks_wf(chunks) && #[trigger] capsule_encoding_of(
                    "toka"@,
                    "main"@,
                    chunks,
                    signed,
                    pk,
                    sg,
                ) == Some(data@) ==> (r matches Ok(c) && c@.bytecode == concat_bytes(chunks)
                    && c@.is_signed == signed && c@.raw == data@),
            r matches Ok(c) ==> c@.raw == data@ && c@.provenance.len() == 32,
    {
        let parts = match vsf_capsule_decode(data) {
            Ok(p) => p,
            Err(e) => {
                proof {
                    // A container the writer produced always decodes.
                    assert(forall|chunks: Seq<Seq<u8>>, signed: bool, pk: Seq<u8>, sg: Seq<u8>|
                        chunks_wf(chunks) ==> #[trigger] capsule_encoding_of(
                            "toka"@,
                            "main"@,
                            chunks,
                            signed,
                            pk,
                            sg,
                        ) != Some(data@));
                }
                return Err(e);
            },
        };
        let section_name: String = String::from_str("toka");
        let field_name: String = String::from_str("main");
        if !parts.section.eq(&section_name) {
            return Err(CapsuleError::MissingSection);
        }
        if !parts.field.eq(&field_name) {
            return Err(CapsuleError::MalformedField);
        }
        if parts.provenance.len() != 32 {
            return Err(CapsuleError::MalformedHeader);
        }
        let mut bytecode: Vec<u8> = Vec::new();
        let n = parts.chunks.len();
        let mut i: usize = 0;
        while i < n
            invariant
                i <= n,
                n == parts.chunks.len(),
                bytecode@ =~= concat_bytes(bviews(parts.chunks@).take(i as int)),
            decreases n - i,
        {
            let chunk = &parts.chunks[i];
            let m = chunk.len();
            let mut j: usize = 0;
            while j < m
                invariant
                    j <= m,
                    m == chunk.len(),
                    bytecode@ =~= concat_bytes(bviews(parts.chunks@).take(i as int)) + chunk@
                        .subrange(0, j as int),
                decreases m - j,
            {
                bytecode.push(chunk[j]);
                j = j + 1;
            }
            proof {
                lemma_concat_take_step(bviews(parts.chunks@), i as int);
                assert(bytecode@ =~= concat_bytes(bviews(parts.chunks@).take(i + 1 as int)));
            }
            i = i + 1;
        }
        proof {
            assert(bviews(parts.chunks@).take(n as int) =~= bviews(parts.chunks@));
        }
        let raw = data.clone();
        proof {
            assert(raw@ =~= data@);
        }
        Ok(Capsule { raw, bytecode, provenance: parts.provenance, is_signed: parts.signed })
    }

    /// Verify authenticity and integrity.  A signed capsule is verified
    /// cryptographically against its embedded public key: success proves
    /// authenticity and integrity both.  An unsigned capsule falls back to
    /// its embedded integrity hash, which proves only that the bytes were
    /// not corrupted, never who produced them; a caller that requires
    /// authenticity must reject unsigned capsules itself.  A failure is
    /// reported, never silently downgraded.
    pub fn verify(&self) -> (r: Result<(), CapsuleError>)
        ensures
            !self@.is_signed ==> (r matches Ok(()) <==> integrity_ok(self@.raw)),
            !self@.is_signed && !integrity_ok(self@.raw) ==> r == Err::<(), CapsuleError>(
                CapsuleError::IntegrityFailed,
            ),
            self@.is_signed ==> (r matches Ok(()) <==> signature_status_of(self@.raw) == Some(
                true,
            )),
            self@.is_signed && signature_status_of(self@.raw) != Some(true) ==> r == Err::<
                (),
                CapsuleError,
            >(CapsuleError::SignatureInvalid),
    {
        proof {
            use_type_invariant(&*self);
        }
        if self.is_signed {
            match vsf_signature_check(&self.raw) {
                Some(true) => Ok(()),
                _ => Err(CapsuleError::SignatureInvalid),
            }
        } else {
            if vsf_integrity_check(&self.raw) {
                Ok(())
            } else {
                Err(CapsuleError::IntegrityFailed)
            }
        }
    }

    /// The flat bytecode, ready for the engine verbatim.
    pub fn bytecode(&self) -> (r: &Vec<u8>)
        ensures
            r@ == self@.bytecode,
    {
        &self.bytecode
    }

    /// Whether the container carries a signature descriptor.  Loading never
    /// implies trust: an unsigned capsule's verify step proves integrity
    /// only, and a caller that requires authenticity must reject unsigned
    /// capsules itself.
    pub fn is_signed(&self) -> (r: bool)
        ensures
            r == self@.is_signed,
    {
        self.is_signed
    }

    /// The provenance hash: the content's identity, present whether or not
    /// the capsule is signed.
    pub fn provenance(&self) -> (r: &Vec<u8>)
        ensures
            r@ == self@.provenance,
    {
        &self.provenance
    }

    /// The provenance hash as lowercase hex, two digits per byte.
    pub fn provenance_hex(&self) -> (r: String)
        ensures
            r@ == hex_of(self@.provenance),
    {
        bytes_to_hex(&self.provenance)
    }
}

/// The lowercase hex digit of a value below sixteen.
pub open spec fn hex_digit(n: int) -> char {
    if n == 0 {
        '0'
    } else if n == 1 {
        '1'
    } else if n == 2 {
        '2'
    } else if n == 3 {
        '3'
    } else if n == 4 {
        '4'
    } else if n == 5 {
        '5'
    } else if n == 6 {
        '6'
    } else if n == 7 {
        '7'
    } else if n == 8 {
        '8'
    } else if n == 9 {
        '9'
    } else if n == 10 {
        'a'
    } else if n == 11 {
        'b'
    } else if n == 12 {
        'c'
    } else if n == 13 {
        'd'
    } else if n == 14 {
        'e'
    } else {
        'f'
    }
}

/// The lowercase hex rendering of a byte sequence, two digits per byte.
pub open spec fn hex_of(s: Seq<u8>) -> Seq<char>
    decreases s.len(),
{
    if s.len() == 0 {
        Seq::empty()
    } else {
        hex_of(s.drop_last()) + seq![
            hex_digit(s.last() as int / 16),
            hex_digit(s.last() as int % 16),
        ]
    }
}

/// Append one hex digit to a string.
fn push_hex_digit(out: &mut String, d: u8)
    requires
        d < 16,
    ensures
        final(out)@ == old(out)@ + seq![hex_digit(d as int)],
{
    let lit: &str = if d == 0 {
        "0"
    } else if d == 1 {
        "1"
    } else if d == 2 {
        "2"
    } else if d == 3 {
        "3"
    } else if d == 4 {
        "4"
    } else if d == 5 {
        "5"
    } else if d == 6 {
        "6"
    } else if d == 7 {
        "7"
    } else if d == 8 {
        "8"
    } else if d == 9 {
        "9"
    } else if d == 10 {
        "a"
    } else if d == 11 {
        "b"
    } else if d == 12 {
        "c"
    } else if d == 13 {
        "d"
    } else if d == 14 {
        "e"
    } else {
        "f"
    };
    proof {
        reveal_strlit("0");
        reveal_strlit("1");
        reveal_strlit("2");
        reveal_strlit("3");
        reveal_strlit("4");
        reveal_strlit("5");
        reveal_strlit("6");
        reveal_strlit("7");
        reveal_strlit("8");
        reveal_strlit("9");
        reveal_strlit("a");
        reveal_strlit("b");
        reveal_strlit("c");
        reveal_strlit("d");
        reveal_strlit("e");
        reveal_strlit("f");
        assert(lit@ =~= seq![hex_digit(d as int)]);
    }
    out.append(lit);
}

/// The lowercase hex rendering of a byte vector.
pub fn bytes_to_hex(bytes: &Vec<u8>) -> (r: String)
    ensures
        r@ == hex_of(bytes@),
{
    let mut out = String::new();
    let n = bytes.len();
    let mut i: usize = 0;
    while i < n
        invariant
            i <= n,
            n == bytes.len(),
            out@ =~= hex_of(bytes@.take(i as int)),
        decreases n - i,
    {
        let b = bytes[i];
        push_hex_digit(&mut out, b / 16);
        push_hex_digit(&mut out, b % 16);
        proof {
            assert(bytes@.take(i + 1 as int).drop_last() =~= bytes@.take(i as int));
            assert(bytes@.take(i + 1 as int).last() == bytes@[i as int]);
            assert(out@ =~= hex_of(bytes@.take(i + 1 as int)));
        }
        i = i + 1;
    }
    proof {
        assert(bytes@.take(n as int) =~= bytes@);
    }
    out
}

/// Law used by the loader: extending a prefix concatenation by the next
/// span is the concatenation of the longer prefix.
proof fn lemma_concat_take_step(chunks: Seq<Seq<u8>>, i: int)
    requires
        0 <= i < chunks.len(),
    ensures
        concat_bytes(chunks.take(i + 1)) == concat_bytes(chunks.take(i)) + chunks[i],
    decreases i,
{
    if i == 0 {
        assert(chunks.take(1).drop_first() =~= Seq::<Seq<u8>>::empty());
        assert(chunks.take(1)[0] == chunks[0]);
        assert(concat_bytes(chunks.take(0)) + chunks[0] =~= chunks[0]);
        assert(concat_bytes(chunks.take(1)) =~= chunks[0] + concat_bytes(Seq::<Seq<u8>>::empty()));
        assert(chunks[0] + Seq::<u8>::empty() =~= chunks[0]);
    } else {
        lemma_concat_take_step(chunks.drop_first(), i - 1);
        assert(chunks.take(i + 1).drop_first() =~= chunks.drop_first().take(i));
        assert(chunks.take(i).drop_first() =~= chunks.drop_first().take(i - 1));
        assert(concat_bytes(chunks.take(i + 1)) == chunks[0] + concat_bytes(
            chunks.drop_first().take(i),
        ));
        assert(concat_bytes(chunks.take(i)) == chunks[0] + concat_bytes(
            chunks.drop_first().take(i - 1),
        ));
        assert(chunks[0] + (concat_bytes(chunks.drop_first().take(i - 1)) + chunks[i]) =~= (
        chunks[0] + concat_bytes(chunks.drop_first().take(i - 1))) + chunks[i]);
        assert(chunks.drop_first()[i - 1] == chunks[i]);
    }
}

} // verus!
