//! The stored form of a password hash: one line of text that names the
//! algorithm, its version and cost parameters, the salt and the derived key.
//!
//! ```text
//! $argon2id$v=19$m=15000,t=2,p=1$<salt>$<key>
//! ```
//!
//! Numbers are in plain decimal; salt and key are in base64 without padding.
//! Each hash has exactly one stored form, and [`decode`] accepts no other text.

use crate::encoding::base64;
use crate::encoding::decimal;
use crate::encoding::fields;
use vstd::prelude::*;

verus! {

/// The byte `$`, which keeps the fields of a stored hash apart.
pub const FIELD_SEPARATOR: u8 = 36;

/// The byte `,`, which keeps the cost parameters apart.
pub const COST_SEPARATOR: u8 = 44;

/// The least number of bytes in a salt.
pub const MIN_SALT_LEN: usize = 8;

/// The greatest number of bytes in a salt.
pub const MAX_SALT_LEN: usize = 48;

/// The least number of bytes in a derived key.
pub const MIN_KEY_LEN: usize = 10;

/// The greatest number of bytes in a derived key.
pub const MAX_KEY_LEN: usize = 64;

/// The greatest degree of parallelism.
pub const MAX_P_COST: u32 = 0xFF_FFFF;

/// The variant of the key-derivation function.
#[derive(Clone, Copy, Debug, PartialEq, Eq, Structural)]
pub enum Algorithm {
    /// Data-dependent memory access.
    Argon2d,
    /// Data-independent memory access.
    Argon2i,
    /// Data-independent access in the first half pass, data-dependent after.
    Argon2id,
}

/// The version of the key-derivation function.
#[derive(Clone, Copy, Debug, PartialEq, Eq, Structural)]
pub enum Version {
    /// Version 16.
    V0x10,
    /// Version 19.
    V0x13,
}

/// Algorithm, version and cost parameters: all that decides, together with
/// password and salt, which key is derived.
#[derive(Clone, Copy, Debug, PartialEq, Eq, Structural)]
pub struct Params {
    algorithm: Algorithm,
    version: Version,
    m_cost: u32,
    t_cost: u32,
    p_cost: u32,
}

/// What a stored hash holds.
pub struct HashParts {
    params: Params,
    salt: Vec<u8>,
    key: Vec<u8>,
}

/// A password hash in its stored form.
pub struct StoredPasswordHash {
    text: Vec<u8>,
}

/// Why a text is not a stored hash.
#[derive(Clone, Copy, Debug, PartialEq, Eq, Structural)]
pub enum DecodeError {
    /// The text is not the stored form of any hash.
    MalformedHash,
}

/// Algorithm, version and cost parameters, as plain values.
pub ghost struct ParamsModel {
    pub algorithm: Algorithm,
    pub version: Version,
    pub m_cost: u32,
    pub t_cost: u32,
    pub p_cost: u32,
}

/// What a stored hash holds, as mathematical values.
pub ghost struct HashModel {
    pub params: ParamsModel,
    pub salt: Seq<u8>,
    pub key: Seq<u8>,
}

/// Whether the costs can be run: at least one pass, between one and
/// `MAX_P_COST` lanes, and at least eight blocks of memory for each lane.
pub open spec fn cost_ok(m_cost: u32, t_cost: u32, p_cost: u32) -> bool {
    &&& 1 <= t_cost
    &&& 1 <= p_cost <= MAX_P_COST
    &&& 8 * p_cost <= m_cost
}

/// Whether a hash can be stored: its costs can be run and the lengths of its
/// salt and key are within their bounds.
pub open spec fn well_formed(h: HashModel) -> bool {
    &&& cost_ok(h.params.m_cost, h.params.t_cost, h.params.p_cost)
    &&& MIN_SALT_LEN <= h.salt.len() <= MAX_SALT_LEN
    &&& MIN_KEY_LEN <= h.key.len() <= MAX_KEY_LEN
}

/// The name of an algorithm: `argon2d`, `argon2i` or `argon2id`.
pub open spec fn algorithm_tag(algorithm: Algorithm) -> Seq<u8> {
    match algorithm {
        Algorithm::Argon2d => seq![97u8, 114, 103, 111, 110, 50, 100],
        Algorithm::Argon2i => seq![97u8, 114, 103, 111, 110, 50, 105],
        Algorithm::Argon2id => seq![97u8, 114, 103, 111, 110, 50, 105, 100],
    }
}

/// The number of a version.
pub open spec fn version_number(version: Version) -> nat {
    match version {
        Version::V0x10 => 16,
        Version::V0x13 => 19,
    }
}

/// The field `<key>=<n>`, with `n` in decimal.
pub open spec fn keyed(key: u8, n: nat) -> Seq<u8> {
    seq![key, 61u8] + decimal::digits(n)
}

/// The field of the cost parameters: `m=<m>,t=<t>,p=<p>`.
pub open spec fn cost_field(params: ParamsModel) -> Seq<u8> {
    fields::join(
        seq![
            keyed(109, params.m_cost as nat),
            keyed(116, params.t_cost as nat),
            keyed(112, params.p_cost as nat),
        ],
        COST_SEPARATOR,
    )
}

/// The fields of the stored form of `h`, the empty one before the first `$`
/// included.
pub open spec fn hash_fields(h: HashModel) -> Seq<Seq<u8>> {
    seq![
        Seq::empty(),
        algorithm_tag(h.params.algorithm),
        keyed(118, version_number(h.params.version)),
        cost_field(h.params),
        base64::encoded(h.salt),
        base64::encoded(h.key),
    ]
}

/// The stored form of `h`.
pub open spec fn encoding(h: HashModel) -> Seq<u8> {
    fields::join(hash_fields(h), FIELD_SEPARATOR)
}

/// The hash that `text` is the stored form of, or `None` where it is the
/// stored form of no hash.
pub open spec fn decoding(text: Seq<u8>) -> Option<HashModel> {
    if exists|h: HashModel| well_formed(h) && encoding(h) == text {
        Some(choose|h: HashModel| well_formed(h) && encoding(h) == text)
    } else {
        None
    }
}

impl View for Params {
    type V = ParamsModel;

    closed spec fn view(&self) -> ParamsModel {
        ParamsModel {
            algorithm: self.algorithm,
            version: self.version,
            m_cost: self.m_cost,
            t_cost: self.t_cost,
            p_cost: self.p_cost,
        }
    }
}

impl View for HashParts {
    type V = HashModel;

    closed spec fn view(&self) -> HashModel {
        HashModel { params: self.params@, salt: self.salt@, key: self.key@ }
    }
}

impl View for StoredPasswordHash {
    type V = Seq<u8>;

    closed spec fn view(&self) -> Seq<u8> {
        self.text@
    }
}

impl Params {
    #[verifier::type_invariant]
    closed spec fn inv(self) -> bool {
        cost_ok(self.m_cost, self.t_cost, self.p_cost)
    }

    /// The parameters with the given costs, where these can be run.
    pub fn new(
        algorithm: Algorithm,
        version: Version,
        m_cost: u32,
        t_cost: u32,
        p_cost: u32,
    ) -> (params: Option<Params>)
        ensures
            params is Some <==> cost_ok(m_cost, t_cost, p_cost),
            params matches Some(p) ==> p@ == (ParamsModel {
                algorithm,
                version,
                m_cost,
                t_cost,
                p_cost,
            }),
    {
        if t_cost >= 1 && p_cost >= 1 && p_cost <= MAX_P_COST && m_cost / 8 >= p_cost {
            Some(Params { algorithm, version, m_cost, t_cost, p_cost })
        } else {
            None
        }
    }

    /// The parameters that new hashes are made with: Argon2id in version 19,
    /// 15000 KiB of memory, two passes, one lane.
    pub fn standard() -> (params: Params)
        ensures
            params@ == standard_params(),
    {
        Params {
            algorithm: Algorithm::Argon2id,
            version: Version::V0x13,
            m_cost: 15000,
            t_cost: 2,
            p_cost: 1,
        }
    }

    /// Whether these are the parameters that new hashes are made with.
    pub fn is_standard(&self) -> (yes: bool)
        ensures
            yes == (self@ == standard_params()),
    {
        self.algorithm == Algorithm::Argon2id && self.version == Version::V0x13 && self.m_cost
            == 15000 && self.t_cost == 2 && self.p_cost == 1
    }

    /// The variant of the function.
    pub fn algorithm(&self) -> (algorithm: Algorithm)
        ensures
            algorithm == self@.algorithm,
    {
        self.algorithm
    }

    /// The version of the function.
    pub fn version(&self) -> (version: Version)
        ensures
            version == self@.version,
    {
        self.version
    }

    /// The memory cost, in blocks of one KiB.
    pub fn m_cost(&self) -> (m_cost: u32)
        ensures
            m_cost == self@.m_cost,
            cost_ok(self@.m_cost, self@.t_cost, self@.p_cost),
    {
        proof {
            use_type_invariant(self);
        }
        self.m_cost
    }

    /// The number of passes.
    pub fn t_cost(&self) -> (t_cost: u32)
        ensures
            t_cost == self@.t_cost,
            cost_ok(self@.m_cost, self@.t_cost, self@.p_cost),
    {
        proof {
            use_type_invariant(self);
        }
        self.t_cost
    }

    /// The number of lanes.
    pub fn p_cost(&self) -> (p_cost: u32)
        ensures
            p_cost == self@.p_cost,
            cost_ok(self@.m_cost, self@.t_cost, self@.p_cost),
    {
        proof {
            use_type_invariant(self);
        }
        self.p_cost
    }
}

/// The parameters that new hashes are made with, as plain values.
pub open spec fn standard_params() -> ParamsModel {
    ParamsModel {
        algorithm: Algorithm::Argon2id,
        version: Version::V0x13,
        m_cost: 15000,
        t_cost: 2,
        p_cost: 1,
    }
}

impl HashParts {
    #[verifier::type_invariant]
    closed spec fn inv(self) -> bool {
        well_formed(self@)
    }

    /// The hash made of the given parts, where the lengths of salt and key are
    /// within their bounds.
    pub fn new(params: Params, salt: Vec<u8>, key: Vec<u8>) -> (parts: Option<HashParts>)
        ensures
            parts is Some <==> MIN_SALT_LEN <= salt.len() <= MAX_SALT_LEN && MIN_KEY_LEN
                <= key.len() <= MAX_KEY_LEN,
            parts matches Some(h) ==> h@ == (HashModel {
                params: params@,
                salt: salt@,
                key: key@,
            }),
    {
        proof {
            use_type_invariant(&params);
        }
        if MIN_SALT_LEN <= salt.len() && salt.len() <= MAX_SALT_LEN && MIN_KEY_LEN <= key.len()
            && key.len() <= MAX_KEY_LEN {
            Some(HashParts { params, salt, key })
        } else {
            None
        }
    }

    /// Algorithm, version and costs.
    pub fn params(&self) -> (params: Params)
        ensures
            params@ == self@.params,
            well_formed(self@),
    {
        proof {
            use_type_invariant(self);
        }
        self.params
    }

    /// The salt.
    pub fn salt(&self) -> (salt: &[u8])
        ensures
            salt@ == self@.salt,
            well_formed(self@),
    {
        proof {
            use_type_invariant(self);
        }
        self.salt.as_slice()
    }

    /// The derived key.
    pub fn key(&self) -> (key: &[u8])
        ensures
            key@ == self@.key,
            well_formed(self@),
    {
        proof {
            use_type_invariant(self);
        }
        self.key.as_slice()
    }
}

impl Clone for StoredPasswordHash {
    fn clone(&self) -> (copy: Self)
        ensures
            copy@ == self@,
    {
        StoredPasswordHash { text: vstd::slice::slice_to_vec(self.text.as_slice()) }
    }
}

impl StoredPasswordHash {
    /// The stored hash that holds `text`, whatever it is.
    pub fn from_bytes(text: Vec<u8>) -> (stored: StoredPasswordHash)
        ensures
            stored@ == text@,
    {
        StoredPasswordHash { text }
    }

    /// The text.
    pub fn as_bytes(&self) -> (text: &[u8])
        ensures
            text@ == self@,
    {
        self.text.as_slice()
    }

    /// The text, handed over.
    pub fn into_bytes(self) -> (text: Vec<u8>)
        ensures
            text@ == self@,
    {
        self.text
    }
}

/// The algorithm that `text` is the name of.
pub open spec fn named_algorithm(text: Seq<u8>) -> Option<Algorithm> {
    if text == algorithm_tag(Algorithm::Argon2d) {
        Some(Algorithm::Argon2d)
    } else if text == algorithm_tag(Algorithm::Argon2i) {
        Some(Algorithm::Argon2i)
    } else if text == algorithm_tag(Algorithm::Argon2id) {
        Some(Algorithm::Argon2id)
    } else {
        None
    }
}

/// The number in a field `<key>=<n>`.
pub open spec fn keyed_number(key: u8, text: Seq<u8>) -> Option<u32> {
    if text.len() >= 2 && text[0] == key && text[1] == 61 {
        decimal::number_u32(text.skip(2))
    } else {
        None
    }
}

/// The version in a field `v=<n>`.
pub open spec fn named_version(text: Seq<u8>) -> Option<Version> {
    match keyed_number(118, text) {
        Some(n) => if n == 16 {
            Some(Version::V0x10)
        } else if n == 19 {
            Some(Version::V0x13)
        } else {
            None
        },
        None => None,
    }
}

/// The costs in a field `m=<m>,t=<t>,p=<p>`.
pub open spec fn parsed_costs(text: Seq<u8>) -> Option<(u32, u32, u32)> {
    let parts = fields::split(text, COST_SEPARATOR);
    if parts.len() != 3 {
        None
    } else {
        match (keyed_number(109, parts[0]), keyed_number(116, parts[1]), keyed_number(112, parts[2])) {
            (Some(m), Some(t), Some(p)) => Some((m, t, p)),
            _ => None,
        }
    }
}

/// What reading `text` field by field gives: the hash whose stored form it is,
/// as `lemma_decoding_is_parsed` shows.
pub open spec fn parsed(text: Seq<u8>) -> Option<HashModel> {
    let parts = fields::split(text, FIELD_SEPARATOR);
    if parts.len() != 6 || parts[0].len() != 0 {
        None
    } else {
        match (
            named_algorithm(parts[1]),
            named_version(parts[2]),
            parsed_costs(parts[3]),
            base64::decoded(parts[4]),
            base64::decoded(parts[5]),
        ) {
            (Some(algorithm), Some(version), Some(costs), Some(salt), Some(key)) => {
                let h = HashModel {
                    params: ParamsModel {
                        algorithm,
                        version,
                        m_cost: costs.0,
                        t_cost: costs.1,
                        p_cost: costs.2,
                    },
                    salt,
                    key,
                };
                if well_formed(h) {
                    Some(h)
                } else {
                    None
                }
            },
            _ => None,
        }
    }
}

/// A joined text is free of a byte that is not the separator and that none of
/// the fields holds.
proof fn lemma_join_free(parts: Seq<Seq<u8>>, sep: u8, other: u8)
    requires
        sep != other,
        forall|k: int| 0 <= k < parts.len() ==> fields::free_of(#[trigger] parts[k], other),
    ensures
        fields::free_of(fields::join(parts, sep), other),
    decreases parts.len(),
{
    if parts.len() >= 2 {
        lemma_join_free(parts.drop_last(), sep, other);
    }
}

/// A field `<key>=<n>` holds its key, `=` and digits, and nothing else.
proof fn lemma_keyed_free(key: u8, n: nat, other: u8)
    requires
        other != key,
        other != 61,
        !decimal::is_digit(other),
    ensures
        fields::free_of(keyed(key, n), other),
{
    decimal::lemma_digits_shape(n);
}

/// The number of a field `<key>=<n>` is read back from it.
proof fn lemma_keyed_number(key: u8, n: u32)
    ensures
        keyed_number(key, keyed(key, n as nat)) == Some(n),
{
    decimal::lemma_number_digits(n as nat);
    assert(keyed(key, n as nat).skip(2) =~= decimal::digits(n as nat));
}

/// A field that is read as `<key>=<n>` is that field.
proof fn lemma_keyed_sound(key: u8, text: Seq<u8>)
    requires
        keyed_number(key, text) is Some,
    ensures
        keyed(key, keyed_number(key, text)->0 as nat) == text,
{
    decimal::lemma_digits_number(text.skip(2));
    assert(seq![key, 61u8] + text.skip(2) =~= text);
}

/// The costs are read back from their field.
proof fn lemma_costs_roundtrip(params: ParamsModel)
    ensures
        parsed_costs(cost_field(params)) == Some((params.m_cost, params.t_cost, params.p_cost)),
        fields::free_of(cost_field(params), FIELD_SEPARATOR),
{
    let parts = seq![
        keyed(109, params.m_cost as nat),
        keyed(116, params.t_cost as nat),
        keyed(112, params.p_cost as nat),
    ];
    lemma_keyed_free(109, params.m_cost as nat, COST_SEPARATOR);
    lemma_keyed_free(116, params.t_cost as nat, COST_SEPARATOR);
    lemma_keyed_free(112, params.p_cost as nat, COST_SEPARATOR);
    lemma_keyed_free(109, params.m_cost as nat, FIELD_SEPARATOR);
    lemma_keyed_free(116, params.t_cost as nat, FIELD_SEPARATOR);
    lemma_keyed_free(112, params.p_cost as nat, FIELD_SEPARATOR);
    fields::lemma_split_join(parts, COST_SEPARATOR);
    lemma_join_free(parts, COST_SEPARATOR, FIELD_SEPARATOR);
    lemma_keyed_number(109, params.m_cost);
    lemma_keyed_number(116, params.t_cost);
    lemma_keyed_number(112, params.p_cost);
}

/// A field that is read as costs is the field of those costs.
proof fn lemma_costs_sound(text: Seq<u8>, params: ParamsModel)
    requires
        parsed_costs(text) == Some((params.m_cost, params.t_cost, params.p_cost)),
    ensures
        cost_field(params) == text,
{
    let parts = fields::split(text, COST_SEPARATOR);
    fields::lemma_join_split(text, COST_SEPARATOR);
    lemma_keyed_sound(109, parts[0]);
    lemma_keyed_sound(116, parts[1]);
    lemma_keyed_sound(112, parts[2]);
    assert(parts =~= seq![
        keyed(109, params.m_cost as nat),
        keyed(116, params.t_cost as nat),
        keyed(112, params.p_cost as nat),
    ]);
}

/// An algorithm is read back from its name, and the name is free of `$`.
proof fn lemma_algorithm_roundtrip(algorithm: Algorithm)
    ensures
        named_algorithm(algorithm_tag(algorithm)) == Some(algorithm),
        fields::free_of(algorithm_tag(algorithm), FIELD_SEPARATOR),
{
    assert(algorithm_tag(Algorithm::Argon2d)[6] == 100);
    assert(algorithm_tag(Algorithm::Argon2i)[6] == 105);
    assert(algorithm_tag(Algorithm::Argon2d).len() == 7);
    assert(algorithm_tag(Algorithm::Argon2i).len() == 7);
    assert(algorithm_tag(Algorithm::Argon2id).len() == 8);
}

/// A version is read back from its field, and the field is free of `$`.
proof fn lemma_version_roundtrip(version: Version)
    ensures
        named_version(keyed(118, version_number(version))) == Some(version),
        fields::free_of(keyed(118, version_number(version)), FIELD_SEPARATOR),
{
    match version {
        Version::V0x10 => lemma_keyed_number(118, 16),
        Version::V0x13 => lemma_keyed_number(118, 19),
    }
    lemma_keyed_free(118, version_number(version), FIELD_SEPARATOR);
}

/// A field that is read as a version is the field of that version.
proof fn lemma_version_sound(text: Seq<u8>)
    requires
        named_version(text) is Some,
    ensures
        keyed(118, version_number(named_version(text)->0)) == text,
{
    lemma_keyed_sound(118, text);
}

/// Reading the stored form of a well-formed hash field by field gives the
/// hash back.
proof fn lemma_parsed_encoding(h: HashModel)
    requires
        well_formed(h),
    ensures
        parsed(encoding(h)) == Some(h),
{
    let parts = hash_fields(h);
    lemma_algorithm_roundtrip(h.params.algorithm);
    lemma_version_roundtrip(h.params.version);
    lemma_costs_roundtrip(h.params);
    base64::lemma_encoded_shape(h.salt);
    base64::lemma_encoded_shape(h.key);
    base64::lemma_decoded_encoded(h.salt);
    base64::lemma_decoded_encoded(h.key);
    assert(fields::free_of(parts[0], FIELD_SEPARATOR));
    assert(fields::free_of(parts[4], FIELD_SEPARATOR)) by {
        assert forall|i: int| 0 <= i < parts[4].len() implies parts[4][i] != FIELD_SEPARATOR by {
            assert(base64::is_symbol(parts[4][i]));
        }
    }
    assert(fields::free_of(parts[5], FIELD_SEPARATOR)) by {
        assert forall|i: int| 0 <= i < parts[5].len() implies parts[5][i] != FIELD_SEPARATOR by {
            assert(base64::is_symbol(parts[5][i]));
        }
    }
    fields::lemma_split_join(parts, FIELD_SEPARATOR);
}

/// A text that is read field by field as `h` is the stored form of `h`, and
/// `h` is well-formed.
proof fn lemma_parsed_sound(text: Seq<u8>)
    requires
        parsed(text) is Some,
    ensures
        well_formed(parsed(text)->0),
        encoding(parsed(text)->0) == text,
{
    let h = parsed(text)->0;
    let parts = fields::split(text, FIELD_SEPARATOR);
    fields::lemma_join_split(text, FIELD_SEPARATOR);
    lemma_version_sound(parts[2]);
    lemma_costs_sound(parts[3], h.params);
    base64::lemma_encoded_decoded(parts[4]);
    base64::lemma_encoded_decoded(parts[5]);
    assert(parts[0] =~= Seq::empty());
    assert(parts =~= hash_fields(h));
}

/// The hash that a text is the stored form of is the hash that reading it
/// field by field gives.
pub proof fn lemma_decoding_is_parsed(text: Seq<u8>)
    ensures
        decoding(text) == parsed(text),
{
    if exists|h: HashModel| well_formed(h) && encoding(h) == text {
        let h = choose|h: HashModel| well_formed(h) && encoding(h) == text;
        lemma_parsed_encoding(h);
    } else {
        if parsed(text) is Some {
            lemma_parsed_sound(text);
        }
    }
}

/// Decoding undoes encoding: the stored form of a well-formed hash is the
/// stored form of that hash and of no other.
pub proof fn lemma_decoding_encoding(h: HashModel)
    requires
        well_formed(h),
    ensures
        decoding(encoding(h)) == Some(h),
{
    lemma_decoding_is_parsed(encoding(h));
    lemma_parsed_encoding(h);
}

/// Encoding undoes decoding: a text that is the stored form of a hash is the
/// encoding of that hash, which is well-formed.
pub proof fn lemma_encoding_decoding(text: Seq<u8>)
    requires
        decoding(text) is Some,
    ensures
        well_formed(decoding(text)->0),
        encoding(decoding(text)->0) == text,
{
}

/// Two well-formed hashes with the same stored form are the same hash.
pub proof fn lemma_encoding_injective(a: HashModel, b: HashModel)
    requires
        well_formed(a),
        well_formed(b),
        encoding(a) == encoding(b),
    ensures
        a == b,
{
    lemma_decoding_encoding(a);
    lemma_decoding_encoding(b);
}

/// Joining one more field puts the separator and the field behind the text.
proof fn lemma_join_push(parts: Seq<Seq<u8>>, last: Seq<u8>, sep: u8)
    requires
        parts.len() >= 1,
    ensures
        fields::join(parts.push(last), sep) == fields::join(parts, sep).push(sep) + last,
{
    assert(parts.push(last).drop_last() =~= parts);
}

/// The stored form of `h`, written out piece by piece.
pub open spec fn flat_encoding(h: HashModel) -> Seq<u8> {
    seq![FIELD_SEPARATOR] + algorithm_tag(h.params.algorithm) + seq![FIELD_SEPARATOR] + keyed(
        118,
        version_number(h.params.version),
    ) + seq![FIELD_SEPARATOR] + keyed(109, h.params.m_cost as nat) + seq![COST_SEPARATOR] + keyed(
        116,
        h.params.t_cost as nat,
    ) + seq![COST_SEPARATOR] + keyed(112, h.params.p_cost as nat) + seq![FIELD_SEPARATOR]
        + base64::encoded(h.salt) + seq![FIELD_SEPARATOR] + base64::encoded(h.key)
}

/// The stored form of a hash is its fields in order, each behind a `$`, with
/// the costs behind each other and a `,` between them.
pub proof fn lemma_encoding_flat(h: HashModel)
    ensures
        encoding(h) == flat_encoding(h),
{
    let m = keyed(109, h.params.m_cost as nat);
    let t = keyed(116, h.params.t_cost as nat);
    let p = keyed(112, h.params.p_cost as nat);
    lemma_join_push(seq![m], t, COST_SEPARATOR);
    lemma_join_push(seq![m, t], p, COST_SEPARATOR);
    assert(seq![m].push(t) =~= seq![m, t]);
    assert(seq![m, t].push(p) =~= seq![m, t, p]);
    assert(cost_field(h.params) =~= m + seq![COST_SEPARATOR] + t + seq![COST_SEPARATOR] + p);
    let f = hash_fields(h);
    let f1 = seq![f[0]];
    let f2 = f1.push(f[1]);
    let f3 = f2.push(f[2]);
    let f4 = f3.push(f[3]);
    let f5 = f4.push(f[4]);
    lemma_join_push(f1, f[1], FIELD_SEPARATOR);
    lemma_join_push(f2, f[2], FIELD_SEPARATOR);
    lemma_join_push(f3, f[3], FIELD_SEPARATOR);
    lemma_join_push(f4, f[4], FIELD_SEPARATOR);
    lemma_join_push(f5, f[5], FIELD_SEPARATOR);
    assert(f5.push(f[5]) =~= f);
    assert(fields::join(f1, FIELD_SEPARATOR) =~= Seq::<u8>::empty());
    assert(fields::join(f2, FIELD_SEPARATOR) =~= seq![FIELD_SEPARATOR] + f[1]);
    assert(fields::join(f3, FIELD_SEPARATOR) =~= seq![FIELD_SEPARATOR] + f[1] + seq![
        FIELD_SEPARATOR,
    ] + f[2]);
    assert(fields::join(f4, FIELD_SEPARATOR) =~= seq![FIELD_SEPARATOR] + f[1] + seq![
        FIELD_SEPARATOR,
    ] + f[2] + seq![FIELD_SEPARATOR] + f[3]);
    assert(fields::join(f5, FIELD_SEPARATOR) =~= seq![FIELD_SEPARATOR] + f[1] + seq![
        FIELD_SEPARATOR,
    ] + f[2] + seq![FIELD_SEPARATOR] + f[3] + seq![FIELD_SEPARATOR] + f[4]);
    assert(encoding(h) =~= flat_encoding(h));
}

/// What stands before the salt in every stored hash of standard parameters:
/// `$argon2id$v=19$m=15000,t=2,p=1$`.
pub open spec fn standard_prefix() -> Seq<u8> {
    seq![
        36u8, 97, 114, 103, 111, 110, 50, 105, 100, 36, 118, 61, 49, 57, 36, 109, 61, 49, 53, 48,
        48, 48, 44, 116, 61, 50, 44, 112, 61, 49, 36,
    ]
}

/// The stored form of a hash of standard parameters is the standard prefix,
/// the salt in base64, a `$`, and the key in base64.
pub proof fn lemma_standard_encoding(h: HashModel)
    requires
        h.params == standard_params(),
    ensures
        encoding(h) == standard_prefix() + base64::encoded(h.salt) + seq![FIELD_SEPARATOR]
            + base64::encoded(h.key),
{
    lemma_encoding_flat(h);
    reveal_with_fuel(decimal::digits, 6);
    assert(decimal::digits(19) =~= seq![49u8, 57]);
    assert(decimal::digits(15000) =~= seq![49u8, 53, 48, 48, 48]);
    assert(decimal::digits(2) =~= seq![50u8]);
    assert(decimal::digits(1) =~= seq![49u8]);
    assert(keyed(118, 19) =~= seq![118u8, 61, 49, 57]);
    assert(keyed(109, 15000) =~= seq![109u8, 61, 49, 53, 48, 48, 48]);
    assert(keyed(116, 2) =~= seq![116u8, 61, 50]);
    assert(keyed(112, 1) =~= seq![112u8, 61, 49]);
    assert(seq![FIELD_SEPARATOR] + algorithm_tag(Algorithm::Argon2id) + seq![FIELD_SEPARATOR]
        + keyed(118, 19) + seq![FIELD_SEPARATOR] + keyed(109, 15000) + seq![COST_SEPARATOR]
        + keyed(116, 2) + seq![COST_SEPARATOR] + keyed(112, 1) + seq![FIELD_SEPARATOR]
        =~= standard_prefix());
    assert(flat_encoding(h) =~= standard_prefix() + base64::encoded(h.salt) + seq![
        FIELD_SEPARATOR,
    ] + base64::encoded(h.key));
}

/// Appends the name of `algorithm` to `out`.
fn write_algorithm(algorithm: Algorithm, out: &mut Vec<u8>)
    ensures
        final(out)@ == old(out)@ + algorithm_tag(algorithm),
{
    out.push(97);
    out.push(114);
    out.push(103);
    out.push(111);
    out.push(110);
    out.push(50);
    match algorithm {
        Algorithm::Argon2d => {
            out.push(100);
        },
        Algorithm::Argon2i => {
            out.push(105);
        },
        Algorithm::Argon2id => {
            out.push(105);
            out.push(100);
        },
    }
    assert(final(out)@ =~= old(out)@ + algorithm_tag(algorithm));
}

/// Appends the field `<key>=<n>` to `out`.
fn write_keyed(key: u8, n: u32, out: &mut Vec<u8>)
    ensures
        final(out)@ == old(out)@ + keyed(key, n as nat),
{
    out.push(key);
    out.push(61);
    decimal::write_u32(n, out);
    assert(final(out)@ =~= old(out)@ + keyed(key, n as nat));
}

/// The number of `version`.
fn number_of(version: Version) -> (n: u32)
    ensures
        n == version_number(version),
{
    match version {
        Version::V0x10 => 16,
        Version::V0x13 => 19,
    }
}

/// Writes a hash in its stored form.
pub fn encode(parts: &HashParts) -> (stored: StoredPasswordHash)
    ensures
        stored@ == encoding(parts@),
{
    let params = parts.params();
    let mut text: Vec<u8> = Vec::new();
    text.push(FIELD_SEPARATOR);
    write_algorithm(params.algorithm(), &mut text);
    text.push(FIELD_SEPARATOR);
    write_keyed(118, number_of(params.version()), &mut text);
    text.push(FIELD_SEPARATOR);
    write_keyed(109, params.m_cost(), &mut text);
    text.push(COST_SEPARATOR);
    write_keyed(116, params.t_cost(), &mut text);
    text.push(COST_SEPARATOR);
    write_keyed(112, params.p_cost(), &mut text);
    text.push(FIELD_SEPARATOR);
    let mut salt = base64::encode(parts.salt());
    text.append(&mut salt);
    text.push(FIELD_SEPARATOR);
    let mut key = base64::encode(parts.key());
    text.append(&mut key);
    proof {
        lemma_encoding_flat(parts@);
        assert(text@ =~= flat_encoding(parts@));
    }
    StoredPasswordHash { text }
}

/// Reads the algorithm that `field` names.
fn read_algorithm(field: &[u8]) -> (algorithm: Option<Algorithm>)
    ensures
        algorithm == named_algorithm(field@),
{
    let n: usize = field.len();
    if n < 7 || n > 8 || field[0] != 97 || field[1] != 114 || field[2] != 103 || field[3] != 111
        || field[4] != 110 || field[5] != 50 {
        proof {
            assert(field@ != algorithm_tag(Algorithm::Argon2d)) by {
                let tag = algorithm_tag(Algorithm::Argon2d);
                assert(tag.len() == 7 && tag[0] == 97 && tag[1] == 114 && tag[2] == 103 && tag[3]
                    == 111 && tag[4] == 110 && tag[5] == 50);
            }
            assert(field@ != algorithm_tag(Algorithm::Argon2i)) by {
                let tag = algorithm_tag(Algorithm::Argon2i);
                assert(tag.len() == 7 && tag[0] == 97 && tag[1] == 114 && tag[2] == 103 && tag[3]
                    == 111 && tag[4] == 110 && tag[5] == 50);
            }
            assert(field@ != algorithm_tag(Algorithm::Argon2id)) by {
                let tag = algorithm_tag(Algorithm::Argon2id);
                assert(tag.len() == 8 && tag[0] == 97 && tag[1] == 114 && tag[2] == 103 && tag[3]
                    == 111 && tag[4] == 110 && tag[5] == 50);
            }
        }
        return None;
    }
    proof {
        assert(algorithm_tag(Algorithm::Argon2d)[6] == 100);
        assert(algorithm_tag(Algorithm::Argon2i)[6] == 105);
        assert(algorithm_tag(Algorithm::Argon2id)[6] == 105);
        assert(algorithm_tag(Algorithm::Argon2id)[7] == 100);
        assert(algorithm_tag(Algorithm::Argon2d).len() == 7);
        assert(algorithm_tag(Algorithm::Argon2i).len() == 7);
        assert(algorithm_tag(Algorithm::Argon2id).len() == 8);
    }
    if n == 7 && field[6] == 100 {
        assert(field@ =~= algorithm_tag(Algorithm::Argon2d));
        Some(Algorithm::Argon2d)
    } else if n == 7 && field[6] == 105 {
        assert(field@ =~= algorithm_tag(Algorithm::Argon2i));
        Some(Algorithm::Argon2i)
    } else if n == 8 && field[6] == 105 && field[7] == 100 {
        assert(field@ =~= algorithm_tag(Algorithm::Argon2id));
        Some(Algorithm::Argon2id)
    } else {
        None
    }
}

/// Reads the number of a field `<key>=<n>`.
fn read_keyed(key: u8, field: &[u8]) -> (n: Option<u32>)
    ensures
        n == keyed_number(key, field@),
{
    if field.len() >= 2 && field[0] == key && field[1] == 61 {
        let digits = vstd::slice::slice_subrange(field, 2, field.len());
        assert(digits@ =~= field@.skip(2));
        decimal::parse_u32(digits)
    } else {
        None
    }
}

/// Reads the version of a field `v=<n>`.
fn read_version(field: &[u8]) -> (version: Option<Version>)
    ensures
        version == named_version(field@),
{
    match read_keyed(118, field) {
        Some(n) => if n == 16 {
            Some(Version::V0x10)
        } else if n == 19 {
            Some(Version::V0x13)
        } else {
            None
        },
        None => None,
    }
}

/// Reads the costs of a field `m=<m>,t=<t>,p=<p>`.
fn read_costs(field: &[u8]) -> (costs: Option<(u32, u32, u32)>)
    ensures
        costs == parsed_costs(field@),
{
    let parts = fields::split_fields(field, COST_SEPARATOR);
    if parts.len() != 3 {
        return None;
    }
    assert(fields::views(parts@)[0] == parts@[0]@);
    assert(fields::views(parts@)[1] == parts@[1]@);
    assert(fields::views(parts@)[2] == parts@[2]@);
    match (
        read_keyed(109, parts[0].as_slice()),
        read_keyed(116, parts[1].as_slice()),
        read_keyed(112, parts[2].as_slice()),
    ) {
        (Some(m), Some(t), Some(p)) => Some((m, t, p)),
        _ => None,
    }
}

/// Reads a stored hash; `MalformedHash` where the text is the stored form of
/// no hash.
pub fn decode(stored: &StoredPasswordHash) -> (result: Result<HashParts, DecodeError>)
    ensures
        match result {
            Ok(parts) => decoding(stored@) == Some(parts@),
            Err(e) => e == DecodeError::MalformedHash && decoding(stored@) is None,
        },
{
    proof {
        lemma_decoding_is_parsed(stored@);
    }
    let parts = fields::split_fields(stored.as_bytes(), FIELD_SEPARATOR);
    if parts.len() != 6 || parts[0].len() != 0 {
        assert(fields::views(parts@)[0] == parts@[0]@);
        return Err(DecodeError::MalformedHash);
    }
    assert(fields::views(parts@)[0] == parts@[0]@);
    assert(fields::views(parts@)[1] == parts@[1]@);
    assert(fields::views(parts@)[2] == parts@[2]@);
    assert(fields::views(parts@)[3] == parts@[3]@);
    assert(fields::views(parts@)[4] == parts@[4]@);
    assert(fields::views(parts@)[5] == parts@[5]@);
    let algorithm = match read_algorithm(parts[1].as_slice()) {
        Some(algorithm) => algorithm,
        None => { return Err(DecodeError::MalformedHash); },
    };
    let version = match read_version(parts[2].as_slice()) {
        Some(version) => version,
        None => { return Err(DecodeError::MalformedHash); },
    };
    let (m_cost, t_cost, p_cost) = match read_costs(parts[3].as_slice()) {
        Some(costs) => costs,
        None => { return Err(DecodeError::MalformedHash); },
    };
    let salt = match base64::decode(parts[4].as_slice()) {
        Some(salt) => salt,
        None => { return Err(DecodeError::MalformedHash); },
    };
    let key = match base64::decode(parts[5].as_slice()) {
        Some(key) => key,
        None => { return Err(DecodeError::MalformedHash); },
    };
    let params = match Params::new(algorithm, version, m_cost, t_cost, p_cost) {
        Some(params) => params,
        None => { return Err(DecodeError::MalformedHash); },
    };
    match HashParts::new(params, salt, key) {
        Some(parts) => Ok(parts),
        None => Err(DecodeError::MalformedHash),
    }
}

} // verus!
