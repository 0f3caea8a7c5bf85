//! The rules that names, session identifiers, capabilities and requests have
//! to meet, and the functions that check them.

use vstd::prelude::*;
use x509_cert::name::Name;
use crate::certs::capabilities::{Capabilities, CapabilitiesView, KeyUsage};
use vstd::utf8::encode_utf8_decode_utf8;
use crate::certs::session_id::{session_id_verdict, SessionId};
use crate::errors::{verdict_view, ConstraintError, ConstraintErrorView};
use crate::text::{decimal, decimal_string};
use crate::x509::name::{
    decode_string, decoded_text, name_attributes, name_contents, AttributeTypeAndValue,
    AttributeTypeAndValueView,
};

verus! {

/// A value that can be held to the rules of the profile.
pub trait Constrained {
    /// What validation of the value yields: `Ok`, or the first rule that the
    /// value breaks.
    spec fn verdict(&self) -> Result<(), ConstraintErrorView>;

    /// Checks the value against its rules and reports the first one broken.
    fn validate(&self) -> (r: Result<(), ConstraintError>)
        ensures
            verdict_view(r) == self.verdict(),
    ;
}

/// The object identifier of the attribute "common name", in dotted form.
pub open spec fn oid_common_name() -> Seq<char> {
    "2.5.4.3"@
}

/// The object identifier of the attribute "domain component".
pub open spec fn oid_domain_component() -> Seq<char> {
    "0.9.2342.19200300.100.1.25"@
}

/// The object identifier of the attribute "UID".
pub open spec fn oid_uid() -> Seq<char> {
    "0.9.2342.19200300.100.1.1"@
}

/// The object identifier of the attribute "uniqueIdentifier".
pub open spec fn oid_unique_identifier() -> Seq<char> {
    "0.9.2342.19200300.100.1.44"@
}

/// All attributes of a name in the order of the scan: relative distinguished
/// name by relative distinguished name, and within each as stored.
pub open spec fn all_attributes(rdns: Seq<Seq<AttributeTypeAndValueView>>) -> Seq<
    AttributeTypeAndValueView,
>
    decreases rdns.len(),
{
    if rdns.len() == 0 {
        Seq::empty()
    } else {
        all_attributes(rdns.drop_last()) + rdns.last()
    }
}

/// How many of `attributes` have the object identifier `oid`.
pub open spec fn count_oid(attributes: Seq<AttributeTypeAndValueView>, oid: Seq<char>) -> nat
    decreases attributes.len(),
{
    if attributes.len() == 0 {
        0
    } else {
        count_oid(attributes.drop_last(), oid) + if attributes.last().oid == oid {
            1nat
        } else {
            0nat
        }
    }
}

/// The error for a name with `count` common names, where one is asked for.
pub open spec fn common_name_error(count: nat) -> ConstraintErrorView {
    ConstraintErrorView::OutOfBounds {
        lower: 1,
        upper: 1,
        actual: decimal(count),
        reason: Some("Distinguished Names must include exactly one common name attribute."@),
    }
}

/// The error for a "uniqueIdentifier" whose value is no string.
pub open spec fn undecodable_session_id_error() -> ConstraintErrorView {
    ConstraintErrorView::Malformed(Some("Tried to decode SessionID as String and failed"@))
}

/// The error that one attribute raises where the scan meets it, after
/// `common_names_before` common names: a "uniqueIdentifier" whose value does
/// not decode as a string or whose text is no valid session identifier, or a
/// second common name.
pub open spec fn attribute_defect(
    attribute: AttributeTypeAndValueView,
    common_names_before: nat,
) -> Option<ConstraintErrorView> {
    if attribute.oid == oid_unique_identifier() {
        match decoded_text(attribute.value) {
            None => Some(undecodable_session_id_error()),
            Some(text) => match session_id_verdict(text) {
                Err(e) => Some(e),
                Ok(()) => None,
            },
        }
    } else if attribute.oid == oid_common_name() && common_names_before >= 1 {
        Some(common_name_error(common_names_before + 1))
    } else {
        None
    }
}

/// The error of the first attribute, in the order of the scan, that raises
/// one.
pub open spec fn first_defect(attributes: Seq<AttributeTypeAndValueView>) -> Option<
    ConstraintErrorView,
>
    decreases attributes.len(),
{
    if attributes.len() == 0 {
        None
    } else {
        match first_defect(attributes.drop_last()) {
            Some(e) => Some(e),
            None => attribute_defect(
                attributes.last(),
                count_oid(attributes.drop_last(), oid_common_name()),
            ),
        }
    }
}

/// What the counts of a fully scanned name yield: one common name, at least
/// one domain component, at most one "UID" and one "uniqueIdentifier", and
/// the two of them together or not at all. The error for a missing domain
/// component names 255 as the upper bound, though no number of them is too
/// many.
pub open spec fn counts_verdict(
    common_names: nat,
    domain_components: nat,
    uids: nat,
    unique_identifiers: nat,
) -> Result<(), ConstraintErrorView> {
    if common_names != 1 {
        Err(common_name_error(common_names))
    } else if domain_components == 0 {
        Err(
            ConstraintErrorView::OutOfBounds {
                lower: 1,
                upper: 255,
                actual: decimal(0),
                reason: Some("Domain Component is missing"@),
            },
        )
    } else if uids > 1 {
        Err(
            ConstraintErrorView::OutOfBounds {
                lower: 0,
                upper: 1,
                actual: decimal(uids),
                reason: Some("Too many UID components supplied"@),
            },
        )
    } else if unique_identifiers > 1 {
        Err(
            ConstraintErrorView::OutOfBounds {
                lower: 0,
                upper: 1,
                actual: decimal(unique_identifiers),
                reason: Some("Too many uniqueIdentifier components supplied"@),
            },
        )
    } else if unique_identifiers > 0 && uids == 0 {
        Err(
            ConstraintErrorView::OutOfBounds {
                lower: 1,
                upper: 1,
                actual: decimal(0),
                reason: Some(
                    "Actors must have uniqueIdentifier AND UID, only uniqueIdentifier found"@,
                ),
            },
        )
    } else if uids > 0 && unique_identifiers == 0 {
        Err(
            ConstraintErrorView::OutOfBounds {
                lower: 1,
                upper: 1,
                actual: decimal(0),
                reason: Some("Actors must have uniqueIdentifier AND UID, only UID found"@),
            },
        )
    } else {
        Ok(())
    }
}

/// What validating the attributes of a name yields: the first error that the
/// scan meets, else what the counts yield.
pub open spec fn attributes_verdict(attributes: Seq<AttributeTypeAndValueView>) -> Result<
    (),
    ConstraintErrorView,
> {
    match first_defect(attributes) {
        Some(e) => Err(e),
        None => counts_verdict(
            count_oid(attributes, oid_common_name()),
            count_oid(attributes, oid_domain_component()),
            count_oid(attributes, oid_uid()),
            count_oid(attributes, oid_unique_identifier()),
        ),
    }
}

/// What validating a name with these relative distinguished names yields.
pub open spec fn name_verdict(rdns: Seq<Seq<AttributeTypeAndValueView>>) -> Result<
    (),
    ConstraintErrorView,
> {
    attributes_verdict(all_attributes(rdns))
}

/// Where the attributes of the relative distinguished name `i` stand among
/// all attributes.
proof fn lemma_attributes_of_rdn(rdns: Seq<Seq<AttributeTypeAndValueView>>, i: int)
    requires
        0 <= i < rdns.len(),
    ensures
        all_attributes(rdns.take(i + 1)) == all_attributes(rdns.take(i)) + rdns[i],
        all_attributes(rdns.take(i + 1)).len() <= all_attributes(rdns).len(),
        all_attributes(rdns).take(all_attributes(rdns.take(i + 1)).len() as int)
            == all_attributes(rdns.take(i + 1)),
    decreases rdns.len() - i,
{
    let upto = rdns.take(i + 1);
    assert(upto.drop_last() =~= rdns.take(i));
    assert(upto.last() == rdns[i]);
    if i + 1 == rdns.len() {
        assert(rdns.take(i + 1) =~= rdns);
        let all = all_attributes(rdns);
        assert(all.take(all.len() as int) =~= all);
    } else {
        lemma_attributes_of_rdn(rdns, i + 1);
        let next = all_attributes(rdns.take(i + 2));
        let all = all_attributes(rdns);
        let here = all_attributes(upto);
        assert(next == here + rdns[i + 1]);
        assert(all.take(next.len() as int) == next);
        assert(all.take(here.len() as int) =~= next.take(here.len() as int));
        assert(next.take(here.len() as int) =~= here);
    }
}

/// An error that the scan has met stays the first one however the name goes
/// on.
proof fn lemma_first_defect_stays(attributes: Seq<AttributeTypeAndValueView>, n: int)
    requires
        0 <= n <= attributes.len(),
        first_defect(attributes.take(n)) is Some,
    ensures
        first_defect(attributes) == first_defect(attributes.take(n)),
    decreases attributes.len() - n,
{
    if n == attributes.len() {
        assert(attributes.take(n) =~= attributes);
    } else {
        assert(attributes.take(n + 1).drop_last() =~= attributes.take(n));
        lemma_first_defect_stays(attributes, n + 1);
    }
}

/// The counts that the scan keeps. A name holds fewer than 2^64 relative
/// distinguished names of fewer than 2^64 attributes each, so that 128 bits
/// hold every count.
struct NameCounts {
    common_names: u128,
    domain_components: u128,
    uids: u128,
    unique_identifiers: u128,
}

impl NameCounts {
    /// The counts are those of `attributes`, none of which raised an error.
    spec fn are_of(self, attributes: Seq<AttributeTypeAndValueView>) -> bool {
        &&& first_defect(attributes) is None
        &&& self.common_names == count_oid(attributes, oid_common_name())
        &&& self.domain_components == count_oid(attributes, oid_domain_component())
        &&& self.uids == count_oid(attributes, oid_uid())
        &&& self.unique_identifiers == count_oid(attributes, oid_unique_identifier())
    }
}

/// The four object identifiers that the scan tells apart.
struct KnownOids {
    common_name: String,
    domain_component: String,
    uid: String,
    unique_identifier: String,
}

impl KnownOids {
    spec fn wf(self) -> bool {
        &&& self.common_name@ == oid_common_name()
        &&& self.domain_component@ == oid_domain_component()
        &&& self.uid@ == oid_uid()
        &&& self.unique_identifier@ == oid_unique_identifier()
    }

    fn new() -> (oids: Self)
        ensures
            oids.wf(),
    {
        KnownOids {
            common_name: "2.5.4.3".to_string(),
            domain_component: "0.9.2342.19200300.100.1.25".to_string(),
            uid: "0.9.2342.19200300.100.1.1".to_string(),
            unique_identifier: "0.9.2342.19200300.100.1.44".to_string(),
        }
    }
}

/// The four object identifiers differ from one another.
proof fn lemma_oids_differ()
    ensures
        oid_common_name() != oid_domain_component(),
        oid_common_name() != oid_uid(),
        oid_common_name() != oid_unique_identifier(),
        oid_domain_component() != oid_uid(),
        oid_domain_component() != oid_unique_identifier(),
        oid_uid() != oid_unique_identifier(),
{
    reveal_strlit("2.5.4.3");
    reveal_strlit("0.9.2342.19200300.100.1.25");
    reveal_strlit("0.9.2342.19200300.100.1.1");
    reveal_strlit("0.9.2342.19200300.100.1.44");
    assert(oid_common_name().len() == 7);
    assert(oid_domain_component().len() == 26);
    assert(oid_uid().len() == 25);
    assert(oid_unique_identifier().len() == 26);
    assert(oid_domain_component()[24] == '2');
    assert(oid_unique_identifier()[24] == '4');
}

/// One step of the scan: takes the attribute that follows `before` into the
/// counts, or reports the error that it raises.
fn scan_attribute(
    attribute: &AttributeTypeAndValue,
    counts: NameCounts,
    oids: &KnownOids,
    Ghost(before): Ghost<Seq<AttributeTypeAndValueView>>,
) -> (r: Result<NameCounts, ConstraintError>)
    requires
        oids.wf(),
        counts.are_of(before),
        before.len() < u128::MAX,
    ensures
        match r {
            Ok(after) => after.are_of(before.push(attribute.deep_view())),
            Err(e) => first_defect(before.push(attribute.deep_view())) == Some(e@),
        },
{
    let ghost now = before.push(attribute.deep_view());
    proof {
        assert(now.drop_last() =~= before);
        assert(now.last() == attribute.deep_view());
        lemma_oids_differ();
        lemma_count_bound(before, oid_common_name());
        lemma_count_bound(before, oid_domain_component());
        lemma_count_bound(before, oid_uid());
        lemma_count_bound(before, oid_unique_identifier());
    }
    let mut counts = counts;
    if attribute.oid == oids.uid {
        counts.uids = counts.uids + 1;
    } else if attribute.oid == oids.unique_identifier {
        counts.unique_identifiers = counts.unique_identifiers + 1;
        match decode_string(&attribute.value) {
            Some(text) => {
                proof {
                    encode_utf8_decode_utf8(text@);
                }
                match SessionId::new_validated(text) {
                    Ok(_) => {},
                    Err(e) => {
                        return Err(e);
                    },
                }
            },
            None => {
                return Err(
                    ConstraintError::malformed("Tried to decode SessionID as String and failed"),
                );
            },
        }
    } else if attribute.oid == oids.common_name {
        counts.common_names = counts.common_names + 1;
        if counts.common_names > 1 {
            return Err(
                ConstraintError::out_of_bounds(
                    1,
                    1,
                    decimal_string(counts.common_names),
                    "Distinguished Names must include exactly one common name attribute.",
                ),
            );
        }
    } else if attribute.oid == oids.domain_component {
        counts.domain_components = counts.domain_components + 1;
    }
    Ok(counts)
}

/// No more attributes have an object identifier than there are attributes.
proof fn lemma_count_bound(attributes: Seq<AttributeTypeAndValueView>, oid: Seq<char>)
    ensures
        count_oid(attributes, oid) <= attributes.len(),
    decreases attributes.len(),
{
    if attributes.len() > 0 {
        lemma_count_bound(attributes.drop_last(), oid);
    }
}

/// Checks the attributes of a name, given relative distinguished name by
/// relative distinguished name: the scan fails at the first "uniqueIdentifier"
/// that holds no valid session identifier and at the second common name; after
/// it the counts are held to the rules.
pub fn validate_rdns(rdns: &Vec<Vec<AttributeTypeAndValue>>) -> (r: Result<(), ConstraintError>)
    ensures
        verdict_view(r) == name_verdict(rdns.deep_view()),
{
    let ghost view = rdns.deep_view();
    let ghost all = all_attributes(view);
    let oids = KnownOids::new();
    let mut counts = NameCounts {
        common_names: 0,
        domain_components: 0,
        uids: 0,
        unique_identifiers: 0,
    };
    let ghost mut n: int = 0;
    let mut i: usize = 0;
    proof {
        assert(view.take(0) =~= Seq::empty());
        assert(all.take(0) =~= Seq::empty());
    }
    while i < rdns.len()
        invariant
            i <= rdns.len(),
            view == rdns.deep_view(),
            all == all_attributes(view),
            oids.wf(),
            0 <= n <= all.len(),
            n == all_attributes(view.take(i as int)).len(),
            all.take(n) == all_attributes(view.take(i as int)),
            n <= i * 0xFFFF_FFFF_FFFF_FFFF,
            counts.are_of(all.take(n)),
        decreases rdns.len() - i,
    {
        let rdn = &rdns[i];
        let ghost start = n;
        proof {
            lemma_attributes_of_rdn(view, i as int);
            assert(view[i as int] == rdn.deep_view());
        }
        let mut j: usize = 0;
        while j < rdn.len()
            invariant
                j <= rdn.len(),
                i < rdns.len(),
                view == rdns.deep_view(),
                view[i as int] == rdn.deep_view(),
                all == all_attributes(view),
                oids.wf(),
                0 <= start,
                n == start + j,
                start + rdn.len() <= all.len(),
                all.take(start + rdn.len()) == all.take(start) + rdn.deep_view(),
                start <= i * 0xFFFF_FFFF_FFFF_FFFF,
                counts.are_of(all.take(n)),
            decreases rdn.len() - j,
        {
            let attribute = &rdn[j];
            proof {
                let upto = all.take(start + rdn.len());
                assert(rdn.deep_view().len() == rdn.len());
                assert(rdn.deep_view()[j as int] == attribute.deep_view());
                assert(all.take(start).len() == start);
                assert(upto[n] == rdn.deep_view()[j as int]);
                assert(all[n] == upto[n]);
                assert(all.take(n + 1) =~= all.take(n).push(attribute.deep_view()));
            }
            match scan_attribute(attribute, counts, &oids, Ghost(all.take(n))) {
                Ok(after) => {
                    counts = after;
                },
                Err(e) => {
                    proof {
                        lemma_first_defect_stays(all, n + 1);
                    }
                    return Err(e);
                },
            }
            j += 1;
            proof {
                n = n + 1;
            }
        }
        i += 1;
    }
    proof {
        assert(view.take(i as int) =~= view);
        assert(all.take(n) =~= all);
    }
    if counts.common_names != 1 {
        return Err(
            ConstraintError::out_of_bounds(
                1,
                1,
                decimal_string(counts.common_names),
                "Distinguished Names must include exactly one common name attribute.",
            ),
        );
    }
    if counts.domain_components == 0 {
        return Err(
            ConstraintError::out_of_bounds(1, 255, decimal_string(0), "Domain Component is missing"),
        );
    }
    if counts.uids > 1 {
        return Err(
            ConstraintError::out_of_bounds(
                0,
                1,
                decimal_string(counts.uids),
                "Too many UID components supplied",
            ),
        );
    }
    if counts.unique_identifiers > 1 {
        return Err(
            ConstraintError::out_of_bounds(
                0,
                1,
                decimal_string(counts.unique_identifiers),
                "Too many uniqueIdentifier components supplied",
            ),
        );
    }
    if counts.unique_identifiers > 0 && counts.uids == 0 {
        return Err(
            ConstraintError::out_of_bounds(
                1,
                1,
                decimal_string(counts.uids),
                "Actors must have uniqueIdentifier AND UID, only uniqueIdentifier found",
            ),
        );
    }
    if counts.uids > 0 && counts.unique_identifiers == 0 {
        return Err(
            ConstraintError::out_of_bounds(
                1,
                1,
                decimal_string(counts.unique_identifiers),
                "Actors must have uniqueIdentifier AND UID, only UID found",
            ),
        );
    }
    Ok(())
}

impl Constrained for Name {
    /// A name is valid where its attributes are: see [`name_verdict`].
    open spec fn verdict(&self) -> Result<(), ConstraintErrorView> {
        name_verdict(name_contents(*self))
    }

    fn validate(&self) -> (r: Result<(), ConstraintError>) {
        let rdns = name_attributes(self);
        validate_rdns(&rdns)
    }
}

/// A name is valid exactly where no attribute raises an error in the scan
/// and the name has one common name, at least one domain component, and
/// either one "UID" and one "uniqueIdentifier" or neither.
pub proof fn lemma_valid_names(rdns: Seq<Seq<AttributeTypeAndValueView>>)
    ensures
        name_verdict(rdns) is Ok <==> {
            let attributes = all_attributes(rdns);
            &&& first_defect(attributes) is None
            &&& count_oid(attributes, oid_common_name()) == 1
            &&& count_oid(attributes, oid_domain_component()) >= 1
            &&& count_oid(attributes, oid_uid()) == count_oid(attributes, oid_unique_identifier())
            &&& count_oid(attributes, oid_uid()) <= 1
        },
{
}

/// A name with two or more common names is not valid.
pub proof fn lemma_two_common_names_fail(rdns: Seq<Seq<AttributeTypeAndValueView>>)
    requires
        count_oid(all_attributes(rdns), oid_common_name()) >= 2,
    ensures
        name_verdict(rdns) is Err,
{
}

/// A name without a domain component is not valid.
pub proof fn lemma_no_domain_component_fails(rdns: Seq<Seq<AttributeTypeAndValueView>>)
    requires
        count_oid(all_attributes(rdns), oid_domain_component()) == 0,
    ensures
        name_verdict(rdns) is Err,
{
}

/// A name with a "UID" and no "uniqueIdentifier", or the other way round, is
/// not valid: in a valid name the two come together or not at all.
pub proof fn lemma_uid_needs_unique_identifier(rdns: Seq<Seq<AttributeTypeAndValueView>>)
    requires
        (count_oid(all_attributes(rdns), oid_uid()) > 0) != (count_oid(
            all_attributes(rdns),
            oid_unique_identifier(),
        ) > 0),
    ensures
        name_verdict(rdns) is Err,
{
}

impl Constrained for SessionId {
    /// A session identifier is valid where it has 1 to 32 bytes. The type
    /// holds none that has not.
    open spec fn verdict(&self) -> Result<(), ConstraintErrorView> {
        session_id_verdict(self@)
    }

    fn validate(&self) -> (r: Result<(), ConstraintError>)
        ensures
            r is Ok,
    {
        let len = self.len();
        if len > 32 || len == 0 {
            return Err(
                ConstraintError::out_of_bounds(
                    1,
                    32,
                    decimal_string(len as u128),
                    "SessionId too long",
                ),
            );
        }
        Ok(())
    }
}

/// Whoever is no certificate authority must be able to sign, with or without
/// a promise of non-repudiation.
pub open spec fn actor_can_sign(c: CapabilitiesView) -> bool {
    c.is_ca() || c.has(KeyUsage::DigitalSignature(true)) || c.has(
        KeyUsage::ContentCommitment(true),
    )
}

/// A key does not sign both with and without a promise of non-repudiation.
pub open spec fn one_kind_of_signing(c: CapabilitiesView) -> bool {
    !(c.has(KeyUsage::DigitalSignature(true)) && c.has(KeyUsage::ContentCommitment(true)))
}

/// The certificate authorities are those whose key signs certificates.
pub open spec fn authority_signs_certificates(c: CapabilitiesView) -> bool {
    c.is_ca() <==> c.has(KeyUsage::KeyCertSign(true))
}

/// A key that only enciphers or only deciphers does so in key agreement.
pub open spec fn only_within_key_agreement(c: CapabilitiesView) -> bool {
    (c.has(KeyUsage::EncipherOnly(true)) || c.has(KeyUsage::DecipherOnly(true))) ==> c.has(
        KeyUsage::KeyAgreement(true),
    )
}

/// Whether capabilities meet all four rules.
pub open spec fn capabilities_ok(c: CapabilitiesView) -> bool {
    &&& actor_can_sign(c)
    &&& one_kind_of_signing(c)
    &&& authority_signs_certificates(c)
    &&& only_within_key_agreement(c)
}

/// What validating capabilities yields: the first of the four rules, in their
/// order, that they break.
pub open spec fn capabilities_verdict(c: CapabilitiesView) -> Result<(), ConstraintErrorView> {
    if !actor_can_sign(c) {
        Err(
            ConstraintErrorView::Malformed(
                Some("Actors require signing capabilities, none found"@),
            ),
        )
    } else if !one_kind_of_signing(c) {
        Err(
            ConstraintErrorView::Malformed(
                Some("Cannot have both signing and non-repudiation signing capabilities"@),
            ),
        )
    } else if !authority_signs_certificates(c) {
        if !c.is_ca() {
            Err(
                ConstraintErrorView::Malformed(
                    Some("If KeyCertSign capability is wanted, CA flag must be true"@),
                ),
            )
        } else {
            Err(ConstraintErrorView::Malformed(Some("CA must have KeyCertSign capability"@)))
        }
    } else if !only_within_key_agreement(c) {
        Err(
            ConstraintErrorView::Malformed(
                Some(
                    "KeyAgreement capability needs to be true to use OnlyEncipher or OnlyDecipher"@,
                ),
            ),
        )
    } else {
        Ok(())
    }
}

/// Capabilities are valid exactly where they meet all four rules.
pub proof fn lemma_valid_capabilities(c: CapabilitiesView)
    ensures
        capabilities_verdict(c) is Ok <==> capabilities_ok(c),
{
}

/// Whether `usage` is among `usages`.
fn has_usage(usages: &Vec<KeyUsage>, usage: KeyUsage) -> (found: bool)
    ensures
        found == usages@.contains(usage),
{
    let mut i: usize = 0;
    while i < usages.len()
        invariant
            i <= usages.len(),
            !usages@.take(i as int).contains(usage),
        decreases usages.len() - i,
    {
        if usages[i] == usage {
            return true;
        }
        proof {
            let upto = usages@.take(i + 1);
            assert forall|k: int| 0 <= k < upto.len() implies upto[k] != usage by {
                if k < i {
                    assert(usages@.take(i as int)[k] == upto[k]);
                }
            }
        }
        i += 1;
    }
    proof {
        assert(usages@.take(i as int) =~= usages@);
    }
    false
}

impl Constrained for Capabilities {
    /// Capabilities are valid where they meet the four rules: see
    /// [`capabilities_verdict`].
    open spec fn verdict(&self) -> Result<(), ConstraintErrorView> {
        capabilities_verdict(self@)
    }

    fn validate(&self) -> (r: Result<(), ConstraintError>)
        ensures
            r is Ok <==> capabilities_ok(self@),
    {
        let is_ca = self.basic_constraints.ca;
        let can_commit_content = has_usage(&self.key_usage, KeyUsage::ContentCommitment(true));
        let can_sign = has_usage(&self.key_usage, KeyUsage::DigitalSignature(true));
        let key_cert_sign = has_usage(&self.key_usage, KeyUsage::KeyCertSign(true));
        let has_only_encipher = has_usage(&self.key_usage, KeyUsage::EncipherOnly(true));
        let has_only_decipher = has_usage(&self.key_usage, KeyUsage::DecipherOnly(true));
        let has_key_agreement = has_usage(&self.key_usage, KeyUsage::KeyAgreement(true));

        if !is_ca && !can_sign && !can_commit_content {
            return Err(
                ConstraintError::malformed("Actors require signing capabilities, none found"),
            );
        }
        if can_sign && can_commit_content {
            return Err(
                ConstraintError::malformed(
                    "Cannot have both signing and non-repudiation signing capabilities",
                ),
            );
        }
        if is_ca || key_cert_sign {
            if !is_ca {
                return Err(
                    ConstraintError::malformed(
                        "If KeyCertSign capability is wanted, CA flag must be true",
                    ),
                );
            }
            if !key_cert_sign {
                return Err(ConstraintError::malformed("CA must have KeyCertSign capability"));
            }
        }
        if (has_only_encipher || has_only_decipher) && !has_key_agreement {
            Err(
                ConstraintError::malformed(
                    "KeyAgreement capability needs to be true to use OnlyEncipher or OnlyDecipher",
                ),
            )
        } else {
            Ok(())
        }
    }
}

} // verus!
