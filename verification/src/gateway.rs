//! The gateway's per-frame decode, filter and deduplication pipeline.
//!
//! Capturing radio frames and parsing the generic link-layer framing belong
//! to outside collaborators.  They hand this module a structured
//! advertisement report; from there the pipeline is verified: rebuild the
//! device address from its reversed on-wire order, filter to the allowlist,
//! gather the name and the manufacturer-specific payload, decode it, build
//! the measurement, and suppress burst duplicates.  Each step short-circuits
//! on failure; a discarded frame never touches the deduplication cache.

use vstd::prelude::*;

use crate::codec::COMPANY_IDENTIFIER_CODE;
use crate::dedup::{accepts, addr_key_spec, entry_of, record, DeduplicationCache};
use crate::measurement::{
    builds, built_measurement, BuilderModel, Measurement, MeasurementBuilder,
};
use crate::measurement::parse_payload_spec;
use crate::types::Address;

verus! {

/// One advertisement data element of a captured report, reduced to what the
/// pipeline reads.
pub enum AdElement {
    /// The device's complete local name.
    LocalName(String),
    /// A manufacturer-specific element: vendor identifier and payload.
    ManufacturerData { company: u16, payload: Vec<u8> },
    /// Any other element kind; its content plays no role here.
    Other,
}

/// A structured advertisement report, as the link-layer parser delivers it.
pub struct AdvReport {
    /// The device address as transmitted: in reversed byte order.
    pub address_raw: Vec<u8>,
    /// The received signal strength reported for the frame.
    pub rssi: u8,
    /// The advertisement data elements, in on-air order.
    pub data: Vec<AdElement>,
}

/// Why a frame was discarded before reaching the deduplication cache.
#[derive(Debug, PartialEq, Eq)]
pub enum RejectReason {
    /// The report's address field does not hold six bytes.
    MalformedAddress,
    /// The device address is not in the configured allowlist.
    NotInAllowlist,
    /// The mandatory local name or counter is missing, or the payload was
    /// malformed.
    BuildFailure,
}

/// What processing one report comes to.
#[derive(Debug)]
pub enum ProcessOutcome<'a> {
    /// The frame was discarded; the deduplication cache is untouched.
    Rejected(RejectReason),
    /// A burst retransmission: its counter was already remembered for this
    /// address.  The cache's recency order is untouched.
    Duplicate,
    /// A fresh measurement, recorded in the cache, to forward to the sink.
    New(Measurement<'a>),
}

/// A report's address in canonical order: its bytes un-reversed.
pub open spec fn unreversed(raw: Seq<u8>) -> Seq<u8>
    recommends
        raw.len() == 6,
{
    Seq::new(6, |i: int| raw[5 - i])
}

/// Whether an address is in the allowlist, comparing by raw bytes.
pub open spec fn allowed(list: Seq<Address>, a: Seq<u8>) -> bool {
    exists|i: int| 0 <= i < list.len() && list[i].0@ == a
}

/// A builder before any advertisement element has been applied.
pub open spec fn initial_model(address: Seq<u8>, rssi: u8) -> BuilderModel {
    BuilderModel {
        address: address,
        rssi: rssi,
        local_name: None,
        counter: None,
        temperature: None,
        humidity: None,
        ambient_light: None,
        parse_error: false,
    }
}

/// What one advertisement element contributes to the builder: a local name
/// replaces any earlier one; a manufacturer-specific element with the
/// platform's vendor identifier has its payload decoded; everything else is
/// passed over.
pub open spec fn apply_element(b: BuilderModel, e: AdElement) -> BuilderModel {
    match e {
        AdElement::LocalName(s) => BuilderModel { local_name: Some(s@), ..b },
        AdElement::ManufacturerData { company, payload } => {
            if company == COMPANY_IDENTIFIER_CODE {
                parse_payload_spec(b, payload@)
            } else {
                b
            }
        },
        AdElement::Other => b,
    }
}

/// The builder state after a report's elements are applied in order.
pub open spec fn fold_elements(b: BuilderModel, elems: Seq<AdElement>) -> BuilderModel
    decreases elems.len(),
{
    if elems.len() == 0 {
        b
    } else {
        fold_elements(apply_element(b, elems[0]), elems.skip(1))
    }
}

/// The builder a report decodes to.
pub open spec fn report_builder(report: AdvReport) -> BuilderModel {
    fold_elements(initial_model(unreversed(report.address_raw@), report.rssi), report.data@)
}

/// Folding one more element applies it to the folded prefix.
proof fn lemma_fold_snoc(b: BuilderModel, s: Seq<AdElement>, x: AdElement)
    ensures
        fold_elements(b, s.push(x)) == apply_element(fold_elements(b, s), x),
    decreases s.len(),
{
    if s.len() == 0 {
        assert(s.push(x)[0] == x);
        assert(s.push(x).skip(1) =~= Seq::<AdElement>::empty());
        assert(fold_elements(b, s.push(x)) == fold_elements(
            apply_element(b, x),
            Seq::<AdElement>::empty(),
        ));
        assert(fold_elements(apply_element(b, x), Seq::<AdElement>::empty()) == apply_element(
            b,
            x,
        ));
    } else {
        assert(s.push(x)[0] == s[0]);
        assert(s.push(x).skip(1) =~= s.skip(1).push(x));
        assert(fold_elements(b, s.push(x)) == fold_elements(
            apply_element(b, s[0]),
            s.skip(1).push(x),
        ));
        lemma_fold_snoc(apply_element(b, s[0]), s.skip(1), x);
        assert(fold_elements(b, s) == fold_elements(apply_element(b, s[0]), s.skip(1)));
    }
}

/// The first pipeline step: a frame whose reported on-wire length differs
/// from its captured length is corrupt.
pub fn lengths_valid(original_length: u32, actual_length: u32) -> (r: bool)
    ensures
        r == (original_length == actual_length),
{
    original_length == actual_length
}

/// Whether two addresses hold the same bytes.
fn addr_eq(x: &Address, y: &Address) -> (r: bool)
    ensures
        r == (x.0@ == y.0@),
{
    let r = x.0[0] == y.0[0] && x.0[1] == y.0[1] && x.0[2] == y.0[2] && x.0[3] == y.0[3] && x.0[4]
        == y.0[4] && x.0[5] == y.0[5];
    proof {
        if r {
            assert(x.0@ =~= y.0@);
        }
    }
    r
}

/// Whether the address is in the allowlist.
fn contains_address(list: &Vec<Address>, a: &Address) -> (r: bool)
    ensures
        r == allowed(list@, a.0@),
{
    let mut i: usize = 0;
    #[verifier::loop_isolation(false)]
    while i < list.len()
        invariant
            i <= list@.len(),
            forall|j: int| 0 <= j < i ==> list@[j].0@ != a.0@,
        decreases list@.len() - i,
    {
        if addr_eq(&list[i], a) {
            return true;
        }
        i += 1;
    }
    false
}

/// Processes one structured advertisement report: rebuilds the address,
/// filters to the allowlist, decodes name and payload, builds the
/// measurement and deduplicates its counter.
///
/// A discarded or duplicate frame leaves the cache's contents unchanged; a
/// fresh measurement is remembered as the most recent sighting for its
/// address.
pub fn process_report<'a>(
    report: &'a AdvReport,
    allowlist: &Vec<Address>,
    cache: &mut DeduplicationCache,
) -> (outcome: ProcessOutcome<'a>)
    requires
        old(cache).wf(),
    ensures
        final(cache).wf(),
        ({
            let addr = unreversed(report.address_raw@);
            let rb = report_builder(*report);
            let key = addr_key_spec(addr);
            let e = entry_of(old(cache)@, key);
            &&& report.address_raw@.len() != 6 ==> (outcome matches ProcessOutcome::Rejected(
                RejectReason::MalformedAddress,
            ) && final(cache)@ == old(cache)@)
            &&& report.address_raw@.len() == 6 && !allowed(allowlist@, addr) ==> (
            outcome matches ProcessOutcome::Rejected(RejectReason::NotInAllowlist)
                && final(cache)@ == old(cache)@)
            &&& report.address_raw@.len() == 6 && allowed(allowlist@, addr) && !builds(rb) ==> (
            outcome matches ProcessOutcome::Rejected(RejectReason::BuildFailure) && final(cache)@
                == old(cache)@)
            &&& report.address_raw@.len() == 6 && allowed(allowlist@, addr) && builds(rb)
                && !accepts(e, rb.counter.unwrap()) ==> (outcome matches ProcessOutcome::Duplicate
                && final(cache)@ == old(cache)@)
            &&& report.address_raw@.len() == 6 && allowed(allowlist@, addr) && builds(rb)
                && accepts(e, rb.counter.unwrap()) ==> (outcome matches ProcessOutcome::New(m)
                && m@ == built_measurement(rb) && final(cache)@ == old(cache)@.insert(
                key,
                record(e, rb.counter.unwrap()),
            ))
        }),
{
    if report.address_raw.len() != 6 {
        return ProcessOutcome::Rejected(RejectReason::MalformedAddress);
    }
    let address = Address::from_inverted_slice(report.address_raw.as_slice());
    proof {
        assert(address.0@ =~= unreversed(report.address_raw@));
    }
    if !contains_address(allowlist, &address) {
        return ProcessOutcome::Rejected(RejectReason::NotInAllowlist);
    }
    let mut builder = MeasurementBuilder::new(address, report.rssi);
    let ghost b0 = initial_model(unreversed(report.address_raw@), report.rssi);
    assert(builder@ == b0);
    let mut i: usize = 0;
    #[verifier::loop_isolation(false)]
    while i < report.data.len()
        invariant
            i <= report.data@.len(),
            builder@ == fold_elements(b0, report.data@.take(i as int)),
        decreases report.data@.len() - i,
    {
        let ghost pre = builder@;
        match &report.data[i] {
            AdElement::LocalName(name) => {
                builder.local_name(name.as_str());
            },
            AdElement::ManufacturerData { company, payload } => {
                if *company == COMPANY_IDENTIFIER_CODE {
                    let _ = builder.parse_payload(payload.as_slice());
                }
            },
            AdElement::Other => {},
        }
        proof {
            assert(builder@ == apply_element(pre, report.data@[i as int]));
            assert(report.data@.take(i + 1) =~= report.data@.take(i as int).push(
                report.data@[i as int],
            ));
            lemma_fold_snoc(b0, report.data@.take(i as int), report.data@[i as int]);
        }
        i += 1;
    }
    proof {
        assert(report.data@.take(report.data@.len() as int) =~= report.data@);
        assert(builder@ == report_builder(*report));
    }
    let ghost rb = report_builder(*report);
    match builder.build() {
        Err(_) => ProcessOutcome::Rejected(RejectReason::BuildFailure),
        Ok(m) => {
            if cache.check_and_record(&address, m.counter) {
                ProcessOutcome::New(m)
            } else {
                proof {
                    let key = addr_key_spec(unreversed(report.address_raw@));
                    let e = entry_of(old(cache)@, key);
                    assert(e.contains(rb.counter.unwrap()));
                    assert(e.len() > 0);
                    assert(old(cache)@.dom().contains(key));
                    assert(record(e, rb.counter.unwrap()) == e);
                    assert(cache@ =~= old(cache)@);
                }
                ProcessOutcome::Duplicate
            }
        },
    }
}

} // verus!
