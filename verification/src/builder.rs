//! Accumulating identity parameters and checking every static precondition
//! before anything is sent to the node.
//!
//! [`IdentityBuilder`] is a plain configuration record with chainable setters;
//! [`IdentityBuilder::validate`] applies the invariant checks in a fixed order
//! and reports the first violation, or produces the immutable
//! [`IdentityRequest`] that the registration protocol runs on.

use vstd::prelude::*;
use vstd::utf8::encode_utf8;

use crate::errors::ErrorKind;
use crate::errors::IdentityError;
use crate::errors::ValidationError;
use crate::hex_check::decodes_as_hex;
use crate::hex_check::is_hex_bytes;

verus! {

/// A registered identity: the name commitment the node granted and the
/// transaction id of the accepted registration.  Produced only on full
/// protocol success, never partially.
#[derive(Debug)]
pub struct Identity {
    pub name_commitment: vrsc_rpc::json::identity::NameCommitment,
    pub registration_txid: vrsc_rpc::bitcoin::Txid,
}

impl Identity {
    /// A builder with nothing configured: mainnet, no name, no addresses.
    pub fn builder() -> (r: IdentityBuilder)
        ensures
            r.testnet == false,
            r.currency_name is None,
            r.name is None,
            r.referral is None,
            r.minimum_signatures is None,
            r.addresses@ == Seq::<vrsc::Address>::empty(),
            r.private_address is None,
            r.content_map is None,
    {
        IdentityBuilder {
            testnet: false,
            currency_name: None,
            name: None,
            referral: None,
            minimum_signatures: None,
            addresses: Vec::new(),
            private_address: None,
            content_map: None,
        }
    }
}

/// The mutable accumulator for identity parameters.  Every setter consumes
/// and returns the builder, so calls chain; nothing is checked until
/// [`IdentityBuilder::validate`].
#[derive(Debug)]
pub struct IdentityBuilder {
    pub testnet: bool,
    pub currency_name: Option<String>,
    pub name: Option<String>,
    pub referral: Option<String>,
    /// The node defaults this to 1 when absent.
    pub minimum_signatures: Option<u8>,
    /// The first address pushed is the controlling address of the name
    /// commitment.
    pub addresses: Vec<vrsc::Address>,
    pub private_address: Option<String>,
    pub content_map: Option<Vec<(String, String)>>,
}

/// The value of an optional string: its character sequence, when present.
pub open spec fn opt_string_view(o: Option<String>) -> Option<Seq<char>> {
    match o {
        Some(s) => Some(s@),
        None => None,
    }
}

/// The value of a content map: each entry's key and value as character
/// sequences, in entry order.
pub open spec fn entries_view(entries: Seq<(String, String)>) -> Seq<(Seq<char>, Seq<char>)> {
    entries.map(|i: int, e: (String, String)| (e.0@, e.1@))
}

/// The value of an optional content map.
pub open spec fn content_map_view(o: Option<Vec<(String, String)>>) -> Option<
    Seq<(Seq<char>, Seq<char>)>,
> {
    match o {
        Some(v) => Some(entries_view(v@)),
        None => None,
    }
}

/// The first invariant one content-map entry breaks, in checking order: the
/// key must be at most 20 bytes of hexadecimal, the value at most 32.
pub open spec fn entry_violation(k: Seq<char>, v: Seq<char>) -> Option<ValidationError> {
    if encode_utf8(k).len() > 20 {
        Some(ValidationError::KeyTooLong)
    } else if !is_hex_bytes(encode_utf8(k)) {
        Some(ValidationError::KeyNotHex)
    } else if encode_utf8(v).len() > 32 {
        Some(ValidationError::ValueTooLong)
    } else if !is_hex_bytes(encode_utf8(v)) {
        Some(ValidationError::ValueNotHex)
    } else {
        None
    }
}

/// The first invariant any content-map entry breaks, walking the entries in
/// order.
pub open spec fn first_cm_violation(entries: Seq<(String, String)>) -> Option<ValidationError>
    decreases entries.len(),
{
    if entries.len() == 0 {
        None
    } else if entry_violation(entries[0].0@, entries[0].1@) is Some {
        entry_violation(entries[0].0@, entries[0].1@)
    } else {
        first_cm_violation(entries.drop_first())
    }
}

impl IdentityBuilder {
    /// The first invariant this configuration breaks, in the order
    /// [`IdentityBuilder::validate`] checks them, or `None` when the
    /// configuration is a valid request.
    pub open spec fn first_violation(self) -> Option<ValidationError> {
        if self.minimum_signatures matches Some(ms) && self.addresses@.len() > 0 && (ms as int)
            > self.addresses@.len() {
            Some(ValidationError::TooManySignatures)
        } else if !(self.name matches Some(n) && n@.len() > 0) {
            Some(ValidationError::MissingName)
        } else if self.addresses@.len() == 0 {
            Some(ValidationError::MissingAddress)
        } else {
            match self.content_map {
                Some(cm) => first_cm_violation(cm@),
                None => None,
            }
        }
    }

    /// Selects the test network instead of the main chain.
    pub fn testnet(self, testnet: bool) -> (r: Self)
        ensures
            r == (IdentityBuilder { testnet, ..self }),
    {
        IdentityBuilder { testnet, ..self }
    }

    /// Names the chain or currency the identity is created on; absent means
    /// the node's default chain.
    pub fn on_currency_name(self, currency_name: &str) -> (r: Self)
        ensures
            r.currency_name matches Some(c) && c@ == currency_name@,
            r == (IdentityBuilder { currency_name: r.currency_name, ..self }),
    {
        IdentityBuilder { currency_name: Some(currency_name.to_owned()), ..self }
    }

    /// Sets the identity name to reserve and register.
    pub fn name(self, s: &str) -> (r: Self)
        ensures
            r.name matches Some(n) && n@ == s@,
            r == (IdentityBuilder { name: r.name, ..self }),
    {
        IdentityBuilder { name: Some(s.to_owned()), ..self }
    }

    /// Names an existing identity as referrer.
    pub fn referral(self, s: &str) -> (r: Self)
        ensures
            r.referral matches Some(n) && n@ == s@,
            r == (IdentityBuilder { referral: r.referral, ..self }),
    {
        IdentityBuilder { referral: Some(s.to_owned()), ..self }
    }

    /// Sets how many of the primary addresses must sign; must not exceed
    /// their number.
    pub fn minimum_signatures(self, s: u8) -> (r: Self)
        ensures
            r == (IdentityBuilder { minimum_signatures: Some(s), ..self }),
    {
        IdentityBuilder { minimum_signatures: Some(s), ..self }
    }

    /// Appends a primary address; the first one appended is the controlling
    /// address of the name commitment.
    pub fn add_address(self, address: vrsc::Address) -> (r: Self)
        ensures
            r.addresses@ == self.addresses@.push(address),
            r == (IdentityBuilder { addresses: r.addresses, ..self }),
    {
        let mut addresses = self.addresses;
        addresses.push(address);
        IdentityBuilder { addresses, ..self }
    }

    /// Sets the shielded address for private identity features.
    pub fn add_private_address(self, s: &str) -> (r: Self)
        ensures
            r.private_address matches Some(n) && n@ == s@,
            r == (IdentityBuilder { private_address: r.private_address, ..self }),
    {
        IdentityBuilder { private_address: Some(s.to_owned()), ..self }
    }

    /// Attaches the content map: opaque key/value annotations, each key at
    /// most 20 bytes of hexadecimal, each value at most 32.
    pub fn with_content_map(self, cm: Vec<(String, String)>) -> (r: Self)
        ensures
            r == (IdentityBuilder { content_map: Some(cm), ..self }),
    {
        IdentityBuilder { content_map: Some(cm), ..self }
    }

    /// Everything [`IdentityBuilder::validate`] promises of its result: it
    /// succeeds exactly when no invariant is broken, a success carries the
    /// builder's configuration with every invariant holding, and a failure
    /// names the first broken invariant.
    pub open spec fn validate_post(self, r: Result<IdentityRequest, IdentityError>) -> bool {
        &&& (r is Ok <==> self.first_violation() is None)
        &&& (r matches Ok(req) ==> req.corresponds(self) && req.well_formed())
        &&& (r matches Err(e) ==> self.first_violation() matches Some(v) && e.kind
            == ErrorKind::Validation(v))
    }

    /// Checks every static invariant, in order: minimum signatures against
    /// the address count, name presence, address presence, then each
    /// content-map entry.  Reports the first violation; performs no I/O.
    pub fn validate(&self) -> (r: Result<IdentityRequest, IdentityError>)
        ensures
            self.validate_post(r),
    {
        if let Some(ms) = self.minimum_signatures {
            if self.addresses.len() > 0 && (ms as usize) > self.addresses.len() {
                return Err(
                    IdentityError {
                        kind: ErrorKind::Validation(ValidationError::TooManySignatures),
                    },
                );
            }
        }

        let name: String = match &self.name {
            None => {
                return Err(
                    IdentityError { kind: ErrorKind::Validation(ValidationError::MissingName) },
                );
            },
            Some(n) => {
                if n.as_str().is_empty() {
                    return Err(
                        IdentityError { kind: ErrorKind::Validation(ValidationError::MissingName) },
                    );
                }
                n.clone()
            },
        };

        if self.addresses.len() == 0 {
            return Err(
                IdentityError { kind: ErrorKind::Validation(ValidationError::MissingAddress) },
            );
        }

        let content_map: Option<Vec<(String, String)>> = match &self.content_map {
            Some(cm) => {
                match check_content_map(cm) {
                    Some(v) => {
                        return Err(IdentityError { kind: ErrorKind::Validation(v) });
                    },
                    None => {
                        let copy = clone_entries(cm);
                        proof {
                            lemma_cm_violation_from_view(copy@, cm@);
                        }
                        Some(copy)
                    },
                }
            },
            None => None,
        };

        let primary_addresses = clone_addresses(&self.addresses);

        Ok(
            IdentityRequest {
                testnet: self.testnet,
                name,
                currency_context: clone_opt_string(&self.currency_name),
                referral: clone_opt_string(&self.referral),
                minimum_signatures: self.minimum_signatures,
                primary_addresses,
                private_address: clone_opt_string(&self.private_address),
                content_map,
            },
        )
    }
}

/// Walks the content map in order and reports the first invariant an entry
/// breaks, or `None` when every entry is within bounds and hexadecimal.
fn check_content_map(entries: &Vec<(String, String)>) -> (r: Option<ValidationError>)
    ensures
        r == first_cm_violation(entries@),
{
    let mut i: usize = 0;
    while i < entries.len()
        invariant
            i <= entries@.len(),
            forall|j: int| 0 <= j < i ==> entry_violation(entries@[j].0@, entries@[j].1@) is None,
        decreases entries@.len() - i,
    {
        let key = &entries[i].0;
        let value = &entries[i].1;
        if key.as_str().as_bytes().len() > 20 {
            proof {
                lemma_first_cm_violation(entries@, i as int);
            }
            return Some(ValidationError::KeyTooLong);
        }
        if !decodes_as_hex(key.as_str()) {
            proof {
                lemma_first_cm_violation(entries@, i as int);
            }
            return Some(ValidationError::KeyNotHex);
        }
        if value.as_str().as_bytes().len() > 32 {
            proof {
                lemma_first_cm_violation(entries@, i as int);
            }
            return Some(ValidationError::ValueTooLong);
        }
        if !decodes_as_hex(value.as_str()) {
            proof {
                lemma_first_cm_violation(entries@, i as int);
            }
            return Some(ValidationError::ValueNotHex);
        }
        i += 1;
    }
    proof {
        lemma_first_cm_violation(entries@, entries@.len() as int);
    }
    None
}

/// The first violation among the entries lies at the first index whose entry
/// breaks an invariant; when no entry does, there is none.
proof fn lemma_first_cm_violation(entries: Seq<(String, String)>, i: int)
    requires
        0 <= i <= entries.len(),
        forall|j: int| 0 <= j < i ==> entry_violation(entries[j].0@, entries[j].1@) is None,
    ensures
        i == entries.len() ==> first_cm_violation(entries) is None,
        i < entries.len() && entry_violation(entries[i].0@, entries[i].1@) is Some
            ==> first_cm_violation(entries) == entry_violation(entries[i].0@, entries[i].1@),
    decreases i,
{
    if i > 0 {
        assert(entry_violation(entries[0].0@, entries[0].1@) is None);
        let tail = entries.drop_first();
        assert forall|j: int| 0 <= j < i - 1 implies entry_violation(
            tail[j].0@,
            tail[j].1@,
        ) is None by {
            assert(tail[j] == entries[j + 1]);
        }
        lemma_first_cm_violation(tail, i - 1);
        if i < entries.len() {
            assert(tail[i - 1] == entries[i]);
        }
    }
}

/// Which invariant a content map breaks first depends only on the keys' and
/// values' character sequences, not on the strings that hold them.
proof fn lemma_cm_violation_from_view(a: Seq<(String, String)>, b: Seq<(String, String)>)
    requires
        entries_view(a) == entries_view(b),
    ensures
        first_cm_violation(a) == first_cm_violation(b),
    decreases a.len(),
{
    assert(entries_view(a).len() == a.len());
    assert(entries_view(b).len() == b.len());
    if a.len() > 0 {
        assert(entries_view(a)[0] == (a[0].0@, a[0].1@));
        assert(entries_view(b)[0] == (b[0].0@, b[0].1@));
        assert(a[0].0@ == b[0].0@);
        assert(a[0].1@ == b[0].1@);
        assert forall|j: int| 0 <= j < a.len() - 1 implies entries_view(a.drop_first())[j]
            == entries_view(b.drop_first())[j] by {
            assert(a.drop_first()[j] == a[j + 1]);
            assert(b.drop_first()[j] == b[j + 1]);
            assert(entries_view(a)[j + 1] == (a[j + 1].0@, a[j + 1].1@));
            assert(entries_view(b)[j + 1] == (b[j + 1].0@, b[j + 1].1@));
        }
        assert(entries_view(a.drop_first()) =~= entries_view(b.drop_first()));
        lemma_cm_violation_from_view(a.drop_first(), b.drop_first());
    }
}

/// Clones an optional string, keeping its value.
fn clone_opt_string(o: &Option<String>) -> (r: Option<String>)
    ensures
        opt_string_view(r) == opt_string_view(*o),
{
    match o {
        Some(s) => Some(s.clone()),
        None => None,
    }
}

/// Clones the address list, keeping every entry and their order.
fn clone_addresses(v: &Vec<vrsc::Address>) -> (r: Vec<vrsc::Address>)
    ensures
        r@ == v@,
{
    let r = v.clone();
    proof {
        assert forall|i: int| 0 <= i < r@.len() implies r@[i] == v@[i] by {
            assert(vstd::pervasive::cloned::<vrsc::Address>(v[i], r[i]));
        }
        assert(r@ =~= v@);
    }
    r
}

/// Clones the content-map entries, keeping every key and value and their
/// order.
fn clone_entries(entries: &Vec<(String, String)>) -> (r: Vec<(String, String)>)
    ensures
        entries_view(r@) == entries_view(entries@),
{
    let mut r: Vec<(String, String)> = Vec::new();
    let mut i: usize = 0;
    while i < entries.len()
        invariant
            i <= entries@.len(),
            r@.len() == i,
            forall|j: int|
                0 <= j < i ==> r@[j].0@ == entries@[j].0@ && r@[j].1@ == entries@[j].1@,
        decreases entries@.len() - i,
    {
        let entry = &entries[i];
        r.push((entry.0.clone(), entry.1.clone()));
        i += 1;
    }
    proof {
        assert forall|j: int| 0 <= j < entries@.len() implies entries_view(r@)[j] == entries_view(
            entries@,
        )[j] by {
            assert(entries_view(r@)[j] == (r@[j].0@, r@[j].1@));
            assert(entries_view(entries@)[j] == (entries@[j].0@, entries@[j].1@));
        }
        assert(entries_view(r@) =~= entries_view(entries@));
    }
    r
}

/// The validated, immutable output of the builder: exactly the configuration
/// the builder held, with every invariant known to hold.
#[derive(Debug, PartialEq)]
pub struct IdentityRequest {
    pub testnet: bool,
    /// Non-empty.
    pub name: String,
    /// The chain or currency the identity is created on; absent means the
    /// node's default chain.
    pub currency_context: Option<String>,
    /// Identity name of a referrer.
    pub referral: Option<String>,
    /// How many primary addresses must sign; the node defaults it to 1.
    pub minimum_signatures: Option<u8>,
    /// Non-empty; the first entry is the controlling address.
    pub primary_addresses: Vec<vrsc::Address>,
    /// Shielded address for private identity features.
    pub private_address: Option<String>,
    /// Validated key/value annotations.
    pub content_map: Option<Vec<(String, String)>>,
}

impl IdentityRequest {
    /// This request carries exactly the configuration of the given builder.
    pub open spec fn corresponds(self, b: IdentityBuilder) -> bool {
        &&& self.testnet == b.testnet
        &&& b.name matches Some(n) && self.name@ == n@
        &&& opt_string_view(self.currency_context) == opt_string_view(b.currency_name)
        &&& opt_string_view(self.referral) == opt_string_view(b.referral)
        &&& self.minimum_signatures == b.minimum_signatures
        &&& self.primary_addresses@ == b.addresses@
        &&& opt_string_view(self.private_address) == opt_string_view(b.private_address)
        &&& content_map_view(self.content_map) == content_map_view(b.content_map)
    }

    /// The invariants `validate` establishes: a non-empty name, at least one
    /// primary address, no more required signatures than addresses, and every
    /// content-map entry within bounds and hexadecimal.
    pub open spec fn well_formed(self) -> bool {
        &&& self.name@.len() > 0
        &&& self.primary_addresses@.len() > 0
        &&& (self.minimum_signatures matches Some(ms) ==> ms as int
            <= self.primary_addresses@.len())
        &&& (self.content_map matches Some(cm) ==> first_cm_violation(cm@) is None)
    }

    /// The two requests carry the same configuration: the same values in
    /// every field.
    pub open spec fn same_request(self, other: IdentityRequest) -> bool {
        &&& self.testnet == other.testnet
        &&& self.name@ == other.name@
        &&& opt_string_view(self.currency_context) == opt_string_view(other.currency_context)
        &&& opt_string_view(self.referral) == opt_string_view(other.referral)
        &&& self.minimum_signatures == other.minimum_signatures
        &&& self.primary_addresses@ == other.primary_addresses@
        &&& opt_string_view(self.private_address) == opt_string_view(other.private_address)
        &&& content_map_view(self.content_map) == content_map_view(other.content_map)
    }
}

/// No content-map entry breaks an invariant exactly when the walk finds no
/// violation.
proof fn lemma_cm_violation_none_iff(entries: Seq<(String, String)>)
    ensures
        first_cm_violation(entries) is None <==> (forall|j: int|
            0 <= j < entries.len() ==> entry_violation(entries[j].0@, entries[j].1@) is None),
    decreases entries.len(),
{
    if entries.len() > 0 {
        lemma_cm_violation_none_iff(entries.drop_first());
        if entry_violation(entries[0].0@, entries[0].1@) is None {
            assert forall|j: int|
                0 <= j < entries.len() && first_cm_violation(entries) is None implies entry_violation(
                entries[j].0@,
                entries[j].1@,
            ) is None by {
                if j > 0 {
                    assert(entries.drop_first()[j - 1] == entries[j]);
                }
            }
            if forall|j: int|
                0 <= j < entries.len() ==> entry_violation(entries[j].0@, entries[j].1@) is None {
                assert forall|j: int|
                    0 <= j < entries.drop_first().len() implies entry_violation(
                    entries.drop_first()[j].0@,
                    entries.drop_first()[j].1@,
                ) is None by {
                    assert(entries.drop_first()[j] == entries[j + 1]);
                }
            }
        }
    }
}

/// Validation is idempotent: two runs on the same unmodified builder either
/// both fail with the same error or both succeed with the same request.
pub proof fn lemma_validate_idempotent(
    b: IdentityBuilder,
    r1: Result<IdentityRequest, IdentityError>,
    r2: Result<IdentityRequest, IdentityError>,
)
    requires
        b.validate_post(r1),
        b.validate_post(r2),
    ensures
        r1 is Ok <==> r2 is Ok,
        r1 matches Err(e1) ==> (r2 matches Err(e2) && e1 == e2),
        r1 matches Ok(q1) ==> (r2 matches Ok(q2) && q1.same_request(q2)),
{
}

/// A configuration without a name, or with an empty one, fails validation
/// with the missing-name error, and nothing is sent to the node.  The
/// minimum-signatures bound is checked first, so this holds wherever that
/// bound is met.
pub proof fn lemma_missing_name_fails(
    b: IdentityBuilder,
    r: Result<IdentityRequest, IdentityError>,
)
    requires
        b.validate_post(r),
        !(b.name matches Some(n) && n@.len() > 0),
        b.minimum_signatures matches Some(ms) ==> (b.addresses@.len() > 0 ==> ms as int
            <= b.addresses@.len()),
    ensures
        r matches Err(e) && e.kind == ErrorKind::Validation(ValidationError::MissingName),
{
}

/// A configuration demanding more signatures than it has primary addresses
/// fails validation, and nothing is sent to the node.
pub proof fn lemma_excess_signatures_fails(
    b: IdentityBuilder,
    r: Result<IdentityRequest, IdentityError>,
)
    requires
        b.validate_post(r),
        b.minimum_signatures matches Some(ms) && ms as int > b.addresses@.len(),
    ensures
        r is Err,
{
}

/// With a name and addresses in order, validation succeeds exactly when
/// every content-map key and value is hexadecimal and within the 20-byte and
/// 32-byte bounds.
pub proof fn lemma_content_map_gates_validation(
    b: IdentityBuilder,
    r: Result<IdentityRequest, IdentityError>,
)
    requires
        b.validate_post(r),
        b.name matches Some(n) && n@.len() > 0,
        b.addresses@.len() > 0,
        b.minimum_signatures matches Some(ms) ==> ms as int <= b.addresses@.len(),
        b.content_map is Some,
    ensures
        r is Ok <==> (b.content_map matches Some(cm) && (forall|j: int|
            0 <= j < cm@.len() ==> entry_violation(cm@[j].0@, cm@[j].1@) is None)),
{
    let cm = b.content_map.unwrap();
    lemma_cm_violation_none_iff(cm@);
}

} // verus!
