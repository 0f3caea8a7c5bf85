//! Capabilities as attributes of a request. Each key usage is an attribute of
//! its own, whose object identifier is that of the X.509 key-usage extension
//! with the number of the usage's bit as one more arc and whose one value is
//! a boolean; the basic constraints are an attribute with the object
//! identifier of the X.509 extension, whose values are the boolean of the
//! authority flag and, where there is one, the path length as an integer. The
//! codec writes and reads the booleans and the integers.

use vstd::prelude::*;
use vstd::seq_lib::to_multiset_build;
use crate::certs::capabilities::{BasicConstraints, Capabilities, CapabilitiesView, KeyUsage};
use crate::errors::{Error, ErrorView, InvalidInput};
use crate::x509::primitive::{
    boolean_value, decode_boolean, decode_integer, decoded_boolean, decoded_integer,
    encode_boolean, encode_integer, integer_value, lemma_integer_read_back,
};
use crate::x509::request::{
    attributes_contents, attributes_made, Attribute, AttributeView, Attributes,
};
use crate::x509::{AttributeValue, AttributeValueView};

verus! {

/// The number of a usage's bit in the key-usage bit string of X.509.
pub open spec fn usage_bit(usage: KeyUsage) -> u32 {
    match usage {
        KeyUsage::DigitalSignature(_) => 0,
        KeyUsage::ContentCommitment(_) => 1,
        KeyUsage::KeyEncipherment(_) => 2,
        KeyUsage::DataEncipherment(_) => 3,
        KeyUsage::KeyAgreement(_) => 4,
        KeyUsage::KeyCertSign(_) => 5,
        KeyUsage::CrlSign(_) => 6,
        KeyUsage::EncipherOnly(_) => 7,
        KeyUsage::DecipherOnly(_) => 8,
    }
}

/// Whether a usage is set.
pub open spec fn usage_flag(usage: KeyUsage) -> bool {
    match usage {
        KeyUsage::DigitalSignature(flag) => flag,
        KeyUsage::ContentCommitment(flag) => flag,
        KeyUsage::KeyEncipherment(flag) => flag,
        KeyUsage::DataEncipherment(flag) => flag,
        KeyUsage::KeyAgreement(flag) => flag,
        KeyUsage::KeyCertSign(flag) => flag,
        KeyUsage::CrlSign(flag) => flag,
        KeyUsage::EncipherOnly(flag) => flag,
        KeyUsage::DecipherOnly(flag) => flag,
    }
}

/// The usage with the bit `bit`, set or not; for a bit above 8 it is that of
/// bit 8.
pub open spec fn usage_of(bit: u32, flag: bool) -> KeyUsage {
    if bit == 0 {
        KeyUsage::DigitalSignature(flag)
    } else if bit == 1 {
        KeyUsage::ContentCommitment(flag)
    } else if bit == 2 {
        KeyUsage::KeyEncipherment(flag)
    } else if bit == 3 {
        KeyUsage::DataEncipherment(flag)
    } else if bit == 4 {
        KeyUsage::KeyAgreement(flag)
    } else if bit == 5 {
        KeyUsage::KeyCertSign(flag)
    } else if bit == 6 {
        KeyUsage::CrlSign(flag)
    } else if bit == 7 {
        KeyUsage::EncipherOnly(flag)
    } else {
        KeyUsage::DecipherOnly(flag)
    }
}

/// The arcs of the object identifier of a usage's attribute: 2.5.29.15 and
/// the number of the bit.
pub open spec fn usage_oid(usage: KeyUsage) -> Seq<u32> {
    seq![2u32, 5u32, 29u32, 15u32, usage_bit(usage)]
}

/// Whether arcs are those of a usage's attribute.
pub open spec fn is_usage_oid(oid: Seq<u32>) -> bool {
    &&& oid.len() == 5
    &&& oid[0] == 2
    &&& oid[1] == 5
    &&& oid[2] == 29
    &&& oid[3] == 15
    &&& oid[4] <= 8
}

/// The arcs of the object identifier of the attribute of basic constraints:
/// 2.5.29.19.
pub open spec fn basic_constraints_oid() -> Seq<u32> {
    seq![2u32, 5u32, 29u32, 19u32]
}

/// The attribute that stands for a key usage.
pub open spec fn usage_attribute(usage: KeyUsage) -> AttributeView {
    AttributeView { oid: usage_oid(usage), values: seq![boolean_value(usage_flag(usage))] }
}

/// The attribute that stands for basic constraints.
pub open spec fn basic_constraints_attribute(constraints: BasicConstraints) -> AttributeView {
    AttributeView {
        oid: basic_constraints_oid(),
        values: match constraints.path_length {
            Some(n) => seq![boolean_value(constraints.ca), integer_value(n)],
            None => seq![boolean_value(constraints.ca)],
        },
    }
}

/// The attributes that stand for capabilities: those of the key usages in
/// their order, then that of the basic constraints.
pub open spec fn capability_attributes(c: CapabilitiesView) -> Seq<AttributeView> {
    c.key_usage.map_values(|usage: KeyUsage| usage_attribute(usage)).push(
        basic_constraints_attribute(c.basic_constraints),
    )
}

/// The key usage that an attribute with a usage's object identifier stands
/// for: its one value is to be a boolean.
pub open spec fn decoded_usage(attribute: AttributeView) -> Result<KeyUsage, InvalidInput> {
    if attribute.values.len() == 1 {
        match decoded_boolean(attribute.values[0]) {
            Some(flag) => Ok(usage_of(attribute.oid[4], flag)),
            None => Err(InvalidInput::KeyUsageValue),
        }
    } else {
        Err(InvalidInput::KeyUsageValue)
    }
}

/// The basic constraints that the values of their attribute stand for: one
/// boolean, or one boolean and one integer in either order.
pub open spec fn decoded_basic_constraints(values: Seq<AttributeValueView>) -> Result<
    BasicConstraints,
    InvalidInput,
> {
    if values.len() == 1 {
        match decoded_boolean(values[0]) {
            Some(ca) => Ok(BasicConstraints { ca, path_length: None }),
            None => Err(InvalidInput::BasicConstraintsValue),
        }
    } else if values.len() == 2 {
        match (decoded_boolean(values[0]), decoded_integer(values[1])) {
            (Some(ca), Some(n)) => Ok(BasicConstraints { ca, path_length: Some(n) }),
            _ => match (decoded_integer(values[0]), decoded_boolean(values[1])) {
                (Some(n), Some(ca)) => Ok(BasicConstraints { ca, path_length: Some(n) }),
                _ => Err(InvalidInput::BasicConstraintsValue),
            },
        }
    } else {
        Err(InvalidInput::BasicConstraintsValue)
    }
}

/// What reading attributes one after the other has found: the key usages in
/// their order, and the basic constraints if their attribute was among them.
pub struct CapabilityScan {
    pub key_usage: Seq<KeyUsage>,
    pub basic_constraints: Option<BasicConstraints>,
}

/// What reading one more attribute makes of what was found before. An
/// attribute with another object identifier is passed over.
pub open spec fn scan_step(before: CapabilityScan, attribute: AttributeView) -> Result<
    CapabilityScan,
    InvalidInput,
> {
    if is_usage_oid(attribute.oid) {
        match decoded_usage(attribute) {
            Ok(usage) => Ok(
                CapabilityScan {
                    key_usage: before.key_usage.push(usage),
                    basic_constraints: before.basic_constraints,
                },
            ),
            Err(e) => Err(e),
        }
    } else if attribute.oid == basic_constraints_oid() {
        if before.basic_constraints is Some {
            Err(InvalidInput::RepeatedBasicConstraints)
        } else {
            match decoded_basic_constraints(attribute.values) {
                Ok(constraints) => Ok(
                    CapabilityScan {
                        key_usage: before.key_usage,
                        basic_constraints: Some(constraints),
                    },
                ),
                Err(e) => Err(e),
            }
        }
    } else {
        Ok(before)
    }
}

/// What reading `attributes` in their order finds, or the first error on the
/// way.
pub open spec fn scanned_capabilities(attributes: Seq<AttributeView>) -> Result<
    CapabilityScan,
    InvalidInput,
>
    decreases attributes.len(),
{
    if attributes.len() == 0 {
        Ok(CapabilityScan { key_usage: Seq::empty(), basic_constraints: None })
    } else {
        match scanned_capabilities(attributes.drop_last()) {
            Ok(before) => scan_step(before, attributes.last()),
            Err(e) => Err(e),
        }
    }
}

/// The basic constraints of a request that names none: no authority.
pub open spec fn default_basic_constraints() -> BasicConstraints {
    BasicConstraints { ca: false, path_length: None }
}

/// The capabilities that attributes stand for.
pub open spec fn decoded_capabilities(attributes: Seq<AttributeView>) -> Result<
    CapabilitiesView,
    InvalidInput,
> {
    match scanned_capabilities(attributes) {
        Ok(found) => Ok(
            CapabilitiesView {
                key_usage: found.key_usage,
                basic_constraints: match found.basic_constraints {
                    Some(constraints) => constraints,
                    None => default_basic_constraints(),
                },
            },
        ),
        Err(e) => Err(e),
    }
}

/// The view of capabilities read from attributes, or of the error.
pub open spec fn decoding_view(r: Result<Capabilities, InvalidInput>) -> Result<
    CapabilitiesView,
    InvalidInput,
> {
    match r {
        Ok(c) => Ok(c@),
        Err(e) => Err(e),
    }
}

/// A boolean as a value.
fn boolean_attribute_value(flag: bool) -> (value: AttributeValue)
    ensures
        value.deep_view() == boolean_value(flag),
{
    encode_boolean(flag).unwrap()
}

/// A path length as a value.
fn integer_attribute_value(n: u64) -> (value: AttributeValue)
    ensures
        value.deep_view() == integer_value(n),
{
    encode_integer(n).unwrap()
}

/// The number of a usage's bit, and whether the usage is set.
fn usage_parts(usage: KeyUsage) -> (parts: (u32, bool))
    ensures
        parts.0 == usage_bit(usage),
        parts.1 == usage_flag(usage),
        parts.0 <= 8,
        usage_of(parts.0, parts.1) == usage,
{
    match usage {
        KeyUsage::DigitalSignature(flag) => (0, flag),
        KeyUsage::ContentCommitment(flag) => (1, flag),
        KeyUsage::KeyEncipherment(flag) => (2, flag),
        KeyUsage::DataEncipherment(flag) => (3, flag),
        KeyUsage::KeyAgreement(flag) => (4, flag),
        KeyUsage::KeyCertSign(flag) => (5, flag),
        KeyUsage::CrlSign(flag) => (6, flag),
        KeyUsage::EncipherOnly(flag) => (7, flag),
        KeyUsage::DecipherOnly(flag) => (8, flag),
    }
}

/// The usage with the bit `bit`, set or not.
fn usage_from_parts(bit: u32, flag: bool) -> (usage: KeyUsage)
    requires
        bit <= 8,
    ensures
        usage == usage_of(bit, flag),
{
    if bit == 0 {
        KeyUsage::DigitalSignature(flag)
    } else if bit == 1 {
        KeyUsage::ContentCommitment(flag)
    } else if bit == 2 {
        KeyUsage::KeyEncipherment(flag)
    } else if bit == 3 {
        KeyUsage::DataEncipherment(flag)
    } else if bit == 4 {
        KeyUsage::KeyAgreement(flag)
    } else if bit == 5 {
        KeyUsage::KeyCertSign(flag)
    } else if bit == 6 {
        KeyUsage::CrlSign(flag)
    } else if bit == 7 {
        KeyUsage::EncipherOnly(flag)
    } else {
        KeyUsage::DecipherOnly(flag)
    }
}

/// The attribute that stands for a key usage.
pub fn attribute_of_usage(usage: KeyUsage) -> (attribute: Attribute)
    ensures
        attribute.deep_view() == usage_attribute(usage),
{
    let (bit, flag) = usage_parts(usage);
    let mut oid: Vec<u32> = Vec::new();
    oid.push(2);
    oid.push(5);
    oid.push(29);
    oid.push(15);
    oid.push(bit);
    let mut values: Vec<AttributeValue> = Vec::new();
    values.push(boolean_attribute_value(flag));
    assert(oid@ =~= usage_oid(usage));
    assert(values.deep_view() =~= usage_attribute(usage).values);
    Attribute { oid, values }
}

/// The attribute that stands for basic constraints.
pub fn attribute_of_basic_constraints(constraints: BasicConstraints) -> (attribute: Attribute)
    ensures
        attribute.deep_view() == basic_constraints_attribute(constraints),
{
    let mut oid: Vec<u32> = Vec::new();
    oid.push(2);
    oid.push(5);
    oid.push(29);
    oid.push(19);
    let mut values: Vec<AttributeValue> = Vec::new();
    values.push(boolean_attribute_value(constraints.ca));
    match constraints.path_length {
        Some(n) => {
            values.push(integer_attribute_value(n));
        },
        None => {},
    }
    assert(oid@ =~= basic_constraints_oid());
    assert(values.deep_view() =~= basic_constraints_attribute(constraints).values);
    Attribute { oid, values }
}

/// The attributes that stand for capabilities.
pub fn attributes_of_capabilities(capabilities: &Capabilities) -> (attributes: Vec<Attribute>)
    ensures
        attributes.deep_view() == capability_attributes(capabilities@),
{
    let mut attributes: Vec<Attribute> = Vec::new();
    let ghost usages = capabilities.key_usage@;
    let mut i: usize = 0;
    while i < capabilities.key_usage.len()
        invariant
            i <= capabilities.key_usage.len(),
            usages == capabilities.key_usage@,
            attributes.len() == i,
            attributes.deep_view() == usages.take(i as int).map_values(
                |usage: KeyUsage| usage_attribute(usage),
            ),
        decreases capabilities.key_usage.len() - i,
    {
        let attribute = attribute_of_usage(capabilities.key_usage[i]);
        let ghost before = attributes.deep_view();
        let ghost old_members = attributes@;
        attributes.push(attribute);
        proof {
            let now = attributes.deep_view();
            let target = usages.take(i + 1).map_values(|usage: KeyUsage| usage_attribute(usage));
            assert(now.len() == target.len());
            assert forall|k: int| 0 <= k < now.len() implies now[k] == target[k] by {
                if k < i {
                    assert(attributes@[k] == old_members[k]);
                    assert(before[k] == old_members[k].deep_view());
                    assert(usages.take(i as int)[k] == usages.take(i + 1)[k]);
                }
            }
            assert(now =~= target);
        }
        i += 1;
    }
    assert(usages.take(i as int) =~= usages);
    let last = attribute_of_basic_constraints(capabilities.basic_constraints);
    let ghost before = attributes.deep_view();
    let ghost old_members = attributes@;
    attributes.push(last);
    proof {
        let now = attributes.deep_view();
        let target = capability_attributes(capabilities@);
        assert(now.len() == target.len());
        assert forall|k: int| 0 <= k < now.len() implies now[k] == target[k] by {
            if k < i {
                assert(attributes@[k] == old_members[k]);
                assert(before[k] == old_members[k].deep_view());
            }
        }
        assert(now =~= target);
    }
    attributes
}

/// The attributes of key usages are read back as the usages, in their order.
proof fn lemma_usages_read_back(usages: Seq<KeyUsage>)
    ensures
        scanned_capabilities(usages.map_values(|usage: KeyUsage| usage_attribute(usage))) == Ok::<
            CapabilityScan,
            InvalidInput,
        >(CapabilityScan { key_usage: usages, basic_constraints: None }),
    decreases usages.len(),
{
    let attributes = usages.map_values(|usage: KeyUsage| usage_attribute(usage));
    if usages.len() == 0 {
        assert(usages =~= Seq::<KeyUsage>::empty());
    } else {
        let before = usages.drop_last();
        lemma_usages_read_back(before);
        assert(attributes.drop_last() =~= before.map_values(
            |usage: KeyUsage| usage_attribute(usage),
        ));
        let usage = usages.last();
        assert(attributes.last() == usage_attribute(usage));
        assert(usage_of(usage_bit(usage), usage_flag(usage)) == usage);
        assert(before.push(usage) =~= usages);
    }
}

/// The attributes that stand for capabilities are read back as the same
/// capabilities.
pub proof fn lemma_capabilities_read_back(c: CapabilitiesView)
    ensures
        decoded_capabilities(capability_attributes(c)) == Ok::<CapabilitiesView, InvalidInput>(c),
{
    let attributes = capability_attributes(c);
    let usages = c.key_usage.map_values(|usage: KeyUsage| usage_attribute(usage));
    lemma_usages_read_back(c.key_usage);
    assert(attributes.drop_last() =~= usages);
    let last = basic_constraints_attribute(c.basic_constraints);
    assert(attributes.last() == last);
    assert(!is_usage_oid(last.oid));
    match c.basic_constraints.path_length {
        Some(n) => {
            lemma_integer_read_back(n);
        },
        None => {
            lemma_integer_read_back(0);
        },
    }
}

/// An error met while reading attributes stays the outcome however the
/// attributes go on.
proof fn lemma_scan_error_stays(attributes: Seq<AttributeView>, n: int)
    requires
        0 <= n <= attributes.len(),
        scanned_capabilities(attributes.take(n)) is Err,
    ensures
        scanned_capabilities(attributes) == scanned_capabilities(attributes.take(n)),
    decreases attributes.len() - n,
{
    if n == attributes.len() {
        assert(attributes.take(n) =~= attributes);
    } else {
        assert(attributes.take(n + 1).drop_last() =~= attributes.take(n));
        lemma_scan_error_stays(attributes, n + 1);
    }
}

/// Whether arcs are those of a usage's attribute.
fn is_usage_arcs(oid: &Vec<u32>) -> (yes: bool)
    ensures
        yes == is_usage_oid(oid@),
{
    oid.len() == 5 && oid[0] == 2 && oid[1] == 5 && oid[2] == 29 && oid[3] == 15 && oid[4] <= 8
}

/// Whether arcs are those of the attribute of basic constraints.
fn is_basic_constraints_arcs(oid: &Vec<u32>) -> (yes: bool)
    ensures
        yes == (oid@ == basic_constraints_oid()),
{
    let yes = oid.len() == 4 && oid[0] == 2 && oid[1] == 5 && oid[2] == 29 && oid[3] == 19;
    proof {
        if yes {
            assert(oid@ =~= basic_constraints_oid());
        }
    }
    yes
}

/// The key usage that an attribute with a usage's object identifier stands
/// for.
fn usage_of_attribute(attribute: &Attribute) -> (r: Result<KeyUsage, InvalidInput>)
    requires
        is_usage_oid(attribute.oid@),
    ensures
        r == decoded_usage(attribute.deep_view()),
{
    if attribute.values.len() != 1 {
        return Err(InvalidInput::KeyUsageValue);
    }
    assert(attribute.deep_view().values[0] == attribute.values@[0].deep_view());
    match decode_boolean(&attribute.values[0]) {
        Some(flag) => Ok(usage_from_parts(attribute.oid[4], flag)),
        None => Err(InvalidInput::KeyUsageValue),
    }
}

/// The basic constraints that the values of their attribute stand for.
fn basic_constraints_of(values: &Vec<AttributeValue>) -> (r: Result<
    BasicConstraints,
    InvalidInput,
>)
    ensures
        r == decoded_basic_constraints(values.deep_view()),
{
    if values.len() == 1 {
        assert(values.deep_view()[0] == values@[0].deep_view());
        match decode_boolean(&values[0]) {
            Some(ca) => Ok(BasicConstraints { ca, path_length: None }),
            None => Err(InvalidInput::BasicConstraintsValue),
        }
    } else if values.len() == 2 {
        assert(values.deep_view()[0] == values@[0].deep_view());
        assert(values.deep_view()[1] == values@[1].deep_view());
        match (decode_boolean(&values[0]), decode_integer(&values[1])) {
            (Some(ca), Some(n)) => Ok(BasicConstraints { ca, path_length: Some(n) }),
            _ => match (decode_integer(&values[0]), decode_boolean(&values[1])) {
                (Some(n), Some(ca)) => Ok(BasicConstraints { ca, path_length: Some(n) }),
                _ => Err(InvalidInput::BasicConstraintsValue),
            },
        }
    } else {
        Err(InvalidInput::BasicConstraintsValue)
    }
}

/// Reads capabilities from attributes given as plain values: the key usages
/// in the order of their attributes, and the basic constraints, which are
/// those of no authority where no attribute gives them. An attribute that
/// stands for neither is passed over. The first attribute that has the object
/// identifier of a capability and not its values fails the reading, and so
/// does a second attribute of basic constraints.
pub fn capabilities_of_attributes(members: &Vec<Attribute>) -> (r: Result<
    Capabilities,
    InvalidInput,
>)
    ensures
        decoding_view(r) == decoded_capabilities(members.deep_view()),
{
    let ghost view = members.deep_view();
    let mut key_usage: Vec<KeyUsage> = Vec::new();
    let mut basic_constraints: Option<BasicConstraints> = None;
    let mut i: usize = 0;
    proof {
        assert(view.take(0) =~= Seq::<AttributeView>::empty());
    }
    while i < members.len()
        invariant
            i <= members.len(),
            view == members.deep_view(),
            scanned_capabilities(view.take(i as int)) == Ok::<CapabilityScan, InvalidInput>(
                CapabilityScan { key_usage: key_usage@, basic_constraints },
            ),
        decreases members.len() - i,
    {
        let member = &members[i];
        proof {
            let next = view.take(i + 1);
            assert(next.drop_last() =~= view.take(i as int));
            assert(next.last() == member.deep_view());
        }
        if is_usage_arcs(&member.oid) {
            match usage_of_attribute(member) {
                Ok(usage) => {
                    key_usage.push(usage);
                },
                Err(e) => {
                    proof {
                        lemma_scan_error_stays(view, i + 1);
                    }
                    return Err(e);
                },
            }
        } else if is_basic_constraints_arcs(&member.oid) {
            if basic_constraints.is_some() {
                proof {
                    lemma_scan_error_stays(view, i + 1);
                }
                return Err(InvalidInput::RepeatedBasicConstraints);
            }
            match basic_constraints_of(&member.values) {
                Ok(constraints) => {
                    basic_constraints = Some(constraints);
                },
                Err(e) => {
                    proof {
                        lemma_scan_error_stays(view, i + 1);
                    }
                    return Err(e);
                },
            }
        }
        i += 1;
    }
    proof {
        assert(view.take(i as int) =~= view);
    }
    let basic_constraints = match basic_constraints {
        Some(constraints) => constraints,
        None => BasicConstraints { ca: false, path_length: None },
    };
    Ok(Capabilities { key_usage, basic_constraints })
}

/// How often `usage` stands among `usages`.
fn count_usage(usages: &Vec<KeyUsage>, usage: KeyUsage) -> (count: usize)
    ensures
        count == usages@.to_multiset().count(usage),
{
    let mut count: usize = 0;
    let mut i: usize = 0;
    proof {
        assert(usages@.take(0) =~= Seq::<KeyUsage>::empty());
        Seq::<KeyUsage>::empty().to_multiset_ensures();
        assert(Seq::<KeyUsage>::empty().to_multiset().len() == 0);
    }
    while i < usages.len()
        invariant
            i <= usages.len(),
            count <= i,
            count == usages@.take(i as int).to_multiset().count(usage),
        decreases usages.len() - i,
    {
        proof {
            to_multiset_build(usages@.take(i as int), usages@[i as int]);
            assert(usages@.take(i + 1) =~= usages@.take(i as int).push(usages@[i as int]));
        }
        if usages[i] == usage {
            count += 1;
        }
        i += 1;
    }
    proof {
        assert(usages@.take(i as int) =~= usages@);
    }
    count
}

impl Capabilities {
    /// Whether `other` declares the same: the same basic constraints, and
    /// each key usage as often, in whatever order.
    pub fn same_as(&self, other: &Capabilities) -> (same: bool)
        ensures
            same == self@.same_as(other@),
    {
        if self.basic_constraints != other.basic_constraints {
            return false;
        }
        let ghost mine = self.key_usage@.to_multiset();
        let ghost theirs = other.key_usage@.to_multiset();
        let mut bit: u32 = 0;
        while bit <= 8
            invariant
                bit <= 9,
                mine == self.key_usage@.to_multiset(),
                theirs == other.key_usage@.to_multiset(),
                forall|b: u32, flag: bool|
                    b < bit ==> mine.count(#[trigger] usage_of(b, flag)) == theirs.count(
                        usage_of(b, flag),
                    ),
            decreases 9 - bit,
        {
            let set = usage_from_parts(bit, true);
            let unset = usage_from_parts(bit, false);
            if count_usage(&self.key_usage, set) != count_usage(&other.key_usage, set) {
                return false;
            }
            if count_usage(&self.key_usage, unset) != count_usage(&other.key_usage, unset) {
                return false;
            }
            bit += 1;
        }
        proof {
            assert forall|usage: KeyUsage| mine.count(usage) == theirs.count(usage) by {
                assert(usage == usage_of(usage_bit(usage), usage_flag(usage)));
            }
            assert(mine =~= theirs);
        }
        true
    }
}

/// What reading capabilities from a set of attributes yields.
pub open spec fn capabilities_in(attributes: Attributes) -> Result<CapabilitiesView, ErrorView> {
    match decoded_capabilities(attributes_contents(attributes)) {
        Ok(c) => Ok(c),
        Err(e) => Err(ErrorView::InvalidInput(e)),
    }
}

/// The view of capabilities or of the error in their place.
pub open spec fn capabilities_view(r: Result<Capabilities, Error>) -> Result<
    CapabilitiesView,
    ErrorView,
> {
    match r {
        Ok(c) => Ok(c@),
        Err(e) => Err(e@),
    }
}

impl TryFrom<Attributes> for Capabilities {
    type Error = Error;

    /// Reads the capabilities that the attributes of a request stand for.
    fn try_from(attributes: Attributes) -> (r: Result<Capabilities, Error>)
        ensures
            capabilities_view(r) == capabilities_in(attributes),
    {
        let members = attributes.list();
        match capabilities_of_attributes(&members) {
            Ok(capabilities) => Ok(capabilities),
            Err(e) => Err(Error::InvalidInput(e)),
        }
    }
}

impl vstd::std_specs::convert::TryFromSpecImpl<Attributes> for Capabilities {
    open spec fn obeys_try_from_spec() -> bool {
        false
    }

    open spec fn try_from_spec(attributes: Attributes) -> Result<Capabilities, Error> {
        arbitrary()
    }
}

/// The set of attributes that stands for capabilities: the set that the
/// codec makes of their attributes, if the codec makes one and it is read
/// back as the same capabilities but for the order of the key usages.
pub open spec fn attributes_of(c: CapabilitiesView) -> Result<Attributes, ErrorView> {
    match attributes_made(capability_attributes(c)) {
        Err(e) => Err(ErrorView::DerError(e)),
        Ok(made) => match capabilities_in(made) {
            Ok(back) => if back.same_as(c) {
                Ok(made)
            } else {
                Err(ErrorView::InvalidInput(InvalidInput::Unrepresentable))
            },
            Err(_) => Err(ErrorView::InvalidInput(InvalidInput::Unrepresentable)),
        },
    }
}

/// The view of a set of attributes or of the error in its place.
pub open spec fn attributes_view(r: Result<Attributes, Error>) -> Result<Attributes, ErrorView> {
    match r {
        Ok(attributes) => Ok(attributes),
        Err(e) => Err(e@),
    }
}

impl TryFrom<Capabilities> for Attributes {
    type Error = Error;

    /// Makes the set of attributes that stands for capabilities. The codec
    /// orders the set and refuses members that it has already; what it made
    /// is read back, and is returned only if it stands for the same
    /// capabilities but for the order of the key usages.
    fn try_from(capabilities: Capabilities) -> (r: Result<Attributes, Error>)
        ensures
            attributes_view(r) == attributes_of(capabilities@),
    {
        let members = attributes_of_capabilities(&capabilities);
        let attributes = match Attributes::of_members(&members) {
            Ok(attributes) => attributes,
            Err(e) => {
                return Err(Error::DerError(e));
            },
        };
        let stored = attributes.members();
        match capabilities_of_attributes(&stored) {
            Ok(back) => {
                if back.same_as(&capabilities) {
                    Ok(attributes)
                } else {
                    Err(Error::InvalidInput(InvalidInput::Unrepresentable))
                }
            },
            Err(_) => Err(Error::InvalidInput(InvalidInput::Unrepresentable)),
        }
    }
}

impl vstd::std_specs::convert::TryFromSpecImpl<Capabilities> for Attributes {
    open spec fn obeys_try_from_spec() -> bool {
        false
    }

    open spec fn try_from_spec(capabilities: Capabilities) -> Result<Attributes, Error> {
        arbitrary()
    }
}

} // verus!
