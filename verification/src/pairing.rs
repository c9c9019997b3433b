//! The pairing authority: the single live pairing code, and the two ways in
//! which a device becomes known to the registry.
//!
//! A request without a key is accepted unconditionally. That is a known
//! weakness in trust, kept for older clients. A request with a key is
//! accepted exactly when the key is the live code; the code is then replaced
//! at once, so that each code admits one device at most.

use vstd::prelude::*;
use vstd::string::StringExecFns;
use rand::Rng;
use crate::device::{DeviceId, DeviceInfo, DeviceInfoView, DeviceType, PluginType};
use crate::message::{Message, MessageView};
use crate::registry::DeviceRegistry;
use crate::text::{decimal, decimal_string, lemma_decimal_injective, lemma_six_digits, str_eq};

verus! {

/// Smallest pairing code.
pub const CODE_MIN: u32 = 100_000;

/// Largest pairing code.
pub const CODE_MAX: u32 = 999_999;

/// The reason given with every rejection.
pub const INVALID_KEY_REASON: &'static str = "Invalid pairing key";

/// Draws a number from `low` to `high`, both included, with
/// `rand::Rng::gen_range` on the thread's generator `rand::thread_rng`.
///
/// Trusted: the number lies in the range. Which number comes is left open:
/// it differs from call to call. The call needs the system's entropy source
/// the first time a thread makes it.
#[verifier::external_body]
fn random_in_range(low: u32, high: u32) -> (drawn: u32)
    requires
        low <= high,
    ensures
        low <= drawn <= high,
{
    rand::thread_rng().gen_range(low..=high)
}

/// Whether a number can be a pairing code.
pub open spec fn is_code(number: nat) -> bool {
    CODE_MIN <= number <= CODE_MAX
}

/// The code that replaces `current` when `candidate` was drawn for it: the
/// candidate itself, if it is a code and not the current one, which must not
/// stay valid; else the code after the current one, the smallest after the
/// largest.
pub open spec fn next_code(current: nat, candidate: nat) -> nat {
    if is_code(candidate) && candidate != current {
        candidate
    } else if current == CODE_MAX {
        CODE_MIN as nat
    } else {
        current + 1
    }
}

/// Draws a number that can be a pairing code.
pub fn draw_candidate() -> (candidate: u32)
    ensures
        is_code(candidate as nat),
{
    random_in_range(CODE_MIN, CODE_MAX)
}

/// The one live pairing code: a number of six decimal digits.
#[derive(Debug)]
pub struct PairingCode {
    value: u32,
}

impl PairingCode {
    #[verifier::type_invariant]
    spec fn in_range(&self) -> bool {
        CODE_MIN <= self.value <= CODE_MAX
    }

    /// The code as a number.
    pub closed spec fn number(&self) -> nat {
        self.value as nat
    }

    /// The code as the text that a device must present: its six digits.
    pub open spec fn text(&self) -> Seq<char> {
        decimal(self.number())
    }

    /// The code with the given number, if that is a code.
    pub fn from_number(number: u32) -> (code: Option<PairingCode>)
        ensures
            match code {
                Some(code) => is_code(number as nat) && code.number() == number,
                None => !is_code(number as nat),
            },
    {
        if CODE_MIN <= number && number <= CODE_MAX {
            Some(PairingCode { value: number })
        } else {
            None
        }
    }

    /// A freshly drawn code.
    pub fn generate() -> (code: PairingCode)
        ensures
            is_code(code.number()),
    {
        PairingCode { value: draw_candidate() }
    }

    /// The number of the code.
    pub fn value(&self) -> (number: u32)
        ensures
            number == self.number(),
            is_code(number as nat),
    {
        proof {
            use_type_invariant(self);
        }
        self.value
    }

    /// The six digits of the code.
    pub fn as_string(&self) -> (text: String)
        ensures
            text@ == self.text(),
            text@.len() == 6,
    {
        proof {
            use_type_invariant(self);
            lemma_six_digits(self.value as nat);
        }
        decimal_string(self.value as u64)
    }

    /// Whether a presented key is this code.
    pub fn matches(&self, key: &str) -> (valid: bool)
        ensures
            valid == (key@ == self.text()),
    {
        let text = self.as_string();
        str_eq(key, text.as_str())
    }

    /// Replaces the code, given a freshly drawn candidate. The new code is
    /// never the old one.
    pub fn rotate(&mut self, candidate: u32)
        ensures
            final(self).number() == next_code(old(self).number(), candidate as nat),
            final(self).number() != old(self).number(),
            final(self).text() != old(self).text(),
            is_code(final(self).number()),
    {
        proof {
            use_type_invariant(&*self);
        }
        let current: u32 = self.value;
        let next: u32 = if CODE_MIN <= candidate && candidate <= CODE_MAX && candidate != current {
            candidate
        } else if current == CODE_MAX {
            CODE_MIN
        } else {
            current + 1
        };
        self.value = next;
        proof {
            if decimal(next as nat) == decimal(current as nat) {
                lemma_decimal_injective(next as nat, current as nat);
            }
        }
    }
}

/// The metadata that a keyed request stands for. The device type and the
/// capabilities are read leniently: a text that names no device type counts
/// as `Mobile`, and tags that name no capability are dropped.
pub open spec fn requested_device(
    id: Seq<char>,
    name: Seq<char>,
    device_type: Seq<char>,
    capabilities: Seq<Seq<char>>,
) -> DeviceInfoView {
    DeviceInfoView {
        id,
        name,
        device_type: DeviceType::lenient(device_type),
        capabilities: PluginType::named_all(capabilities),
    }
}

/// What pairing works on: the registry's table and the live code.
pub struct PairingState {
    pub devices: Map<Seq<char>, DeviceInfoView>,
    pub code: nat,
}

/// A keyed pairing request, as plain values.
pub struct KeyedRequest {
    pub id: Seq<char>,
    pub name: Seq<char>,
    pub device_type: Seq<char>,
    pub capabilities: Seq<Seq<char>>,
    pub pairing_key: Seq<char>,
}

impl KeyedRequest {
    /// The metadata that the request submits.
    pub open spec fn device(self) -> DeviceInfoView {
        requested_device(self.id, self.name, self.device_type, self.capabilities)
    }
}

impl PairingState {
    /// Whether a keyed request presents the live code.
    pub open spec fn admits(self, request: KeyedRequest) -> bool {
        request.pairing_key == decimal(self.code)
    }

    /// The state after a request without a key: the device is entered, the
    /// code stays.
    pub open spec fn after_legacy(self, device: DeviceInfoView) -> PairingState {
        PairingState { devices: self.devices.insert(device.id, device), code: self.code }
    }

    /// The state after a keyed request, where `candidate` is the number
    /// drawn for the next code. A request with the live code enters the
    /// device and replaces the code; any other request changes nothing.
    pub open spec fn after_keyed(self, request: KeyedRequest, candidate: nat) -> PairingState {
        if self.admits(request) {
            PairingState {
                devices: self.devices.insert(request.id, request.device()),
                code: next_code(self.code, candidate),
            }
        } else {
            self
        }
    }

    /// The reply to a keyed request.
    pub open spec fn keyed_reply(self, request: KeyedRequest) -> MessageView {
        if self.admits(request) {
            MessageView::PairingAccepted { device_id: request.id }
        } else {
            MessageView::PairingRejected { device_id: request.id, reason: INVALID_KEY_REASON@ }
        }
    }
}

/// A pairing request of either kind, as plain values.
pub enum PairingRequest {
    /// A request without a key, with the metadata it submits.
    Legacy(DeviceInfoView),
    /// A request with a key.
    Keyed(KeyedRequest),
}

impl PairingRequest {
    /// The identifier of the device that asks.
    pub open spec fn id(self) -> Seq<char> {
        match self {
            PairingRequest::Legacy(device) => device.id,
            PairingRequest::Keyed(request) => request.id,
        }
    }

    /// The metadata that the request submits.
    pub open spec fn device(self) -> DeviceInfoView {
        match self {
            PairingRequest::Legacy(device) => device,
            PairingRequest::Keyed(request) => request.device(),
        }
    }
}

impl PairingState {
    /// Whether a request is accepted: one without a key always, one with a
    /// key if the key is the live code.
    pub open spec fn accepts(self, request: PairingRequest) -> bool {
        match request {
            PairingRequest::Legacy(_) => true,
            PairingRequest::Keyed(keyed) => self.admits(keyed),
        }
    }

    /// The state after a request of either kind, where `candidate` is the
    /// number drawn for the next code.
    pub open spec fn after(self, request: PairingRequest, candidate: nat) -> PairingState {
        match request {
            PairingRequest::Legacy(device) => self.after_legacy(device),
            PairingRequest::Keyed(keyed) => self.after_keyed(keyed, candidate),
        }
    }
}

impl PairingState {
    /// The state after a list of requests, one after the other, where each
    /// request comes with the number drawn for the next code.
    pub open spec fn after_each(self, requests: Seq<PairingRequest>, candidates: Seq<nat>) -> PairingState
        decreases requests.len(),
    {
        if requests.len() == 0 {
            self
        } else {
            self.after_each(requests.drop_last(), candidates.drop_last()).after(
                requests.last(),
                candidates.last(),
            )
        }
    }

    /// Whether each request of a list is accepted when its turn comes.
    pub open spec fn accepts_each(self, requests: Seq<PairingRequest>, candidates: Seq<nat>) -> bool
        decreases requests.len(),
    {
        requests.len() == 0 || (self.accepts_each(requests.drop_last(), candidates.drop_last())
            && self.after_each(requests.drop_last(), candidates.drop_last()).accepts(
            requests.last(),
        ))
    }

    /// The state after a list of keyed requests, one after the other.
    pub open spec fn after_keyed_each(self, requests: Seq<KeyedRequest>, candidates: Seq<nat>) -> PairingState
        decreases requests.len(),
    {
        if requests.len() == 0 {
            self
        } else {
            self.after_keyed_each(requests.drop_last(), candidates.drop_last()).after_keyed(
                requests.last(),
                candidates.last(),
            )
        }
    }
}

/// Pairing is idempotent: where a device is paired again and again, each
/// time with success, by requests of either kind, the registry holds one
/// entry for it, with the metadata submitted last, and every other entry is
/// as it was before the first of these pairings.
pub proof fn lemma_repairing_keeps_one_entry(
    state: PairingState,
    requests: Seq<PairingRequest>,
    candidates: Seq<nat>,
)
    requires
        requests.len() >= 1,
        candidates.len() == requests.len(),
        forall|i: int| 0 <= i < requests.len() ==> (#[trigger] requests[i]).id() == requests[0].id(),
        state.accepts_each(requests, candidates),
    ensures
        ({
            let id = requests[0].id();
            let paired = state.after_each(requests, candidates);
            &&& paired.devices == state.devices.insert(id, requests.last().device())
            &&& paired.devices.contains_key(id)
            &&& paired.devices[id] == requests.last().device()
            &&& paired.devices.remove(id) == state.devices.remove(id)
            &&& paired.devices.dom() == state.devices.dom().insert(id)
        }),
    decreases requests.len(),
{
    let id = requests[0].id();
    let earlier = requests.drop_last();
    let before = state.after_each(earlier, candidates.drop_last());
    let paired = state.after_each(requests, candidates);
    assert(requests.last() == requests[requests.len() - 1]);
    assert(requests.last().id() == id);
    assert(requests.last().device().id == id);
    if earlier.len() >= 1 {
        assert forall|i: int| 0 <= i < earlier.len() implies (#[trigger] earlier[i]).id()
            == earlier[0].id() by {
            assert(earlier[i] == requests[i]);
            assert(earlier[0] == requests[0]);
        }
        lemma_repairing_keeps_one_entry(state, earlier, candidates.drop_last());
        assert(earlier[0] == requests[0]);
    } else {
        assert(before == state);
    }
    assert(paired.devices =~= state.devices.insert(id, requests.last().device()));
    assert(paired.devices.remove(id) =~= state.devices.remove(id));
    assert(paired.devices.dom() =~= state.devices.dom().insert(id));
}

/// A code serves once: after a keyed request was accepted, a request that
/// presents the same key is rejected, and changes neither the registry nor
/// the code, whatever number is drawn.
pub proof fn lemma_code_single_use(
    state: PairingState,
    request: KeyedRequest,
    candidate: nat,
    repeat: KeyedRequest,
    later_candidate: nat,
)
    requires
        state.admits(request),
        repeat.pairing_key == request.pairing_key,
    ensures
        ({
            let after = state.after_keyed(request, candidate);
            &&& !after.admits(repeat)
            &&& after.keyed_reply(repeat) == (MessageView::PairingRejected {
                device_id: repeat.id,
                reason: INVALID_KEY_REASON@,
            })
            &&& after.after_keyed(repeat, later_candidate) == after
        }),
{
    let after = state.after_keyed(request, candidate);
    if decimal(after.code) == decimal(state.code) {
        lemma_decimal_injective(after.code, state.code);
    }
}

/// A used code stays used: after a keyed request was accepted, requests that
/// present the same key are rejected however often they come, and leave the
/// registry and the code as they are.
pub proof fn lemma_used_code_stays_invalid(
    state: PairingState,
    request: KeyedRequest,
    candidate: nat,
    repeats: Seq<KeyedRequest>,
    later_candidates: Seq<nat>,
)
    requires
        state.admits(request),
        later_candidates.len() == repeats.len(),
        forall|i: int|
            0 <= i < repeats.len() ==> (#[trigger] repeats[i]).pairing_key == request.pairing_key,
    ensures
        ({
            let after = state.after_keyed(request, candidate);
            &&& after.after_keyed_each(repeats, later_candidates) == after
            &&& forall|i: int| 0 <= i < repeats.len() ==> !after.admits(#[trigger] repeats[i])
        }),
    decreases repeats.len(),
{
    let after = state.after_keyed(request, candidate);
    assert forall|i: int| 0 <= i < repeats.len() implies !after.admits(#[trigger] repeats[i]) by {
        lemma_code_single_use(state, request, candidate, repeats[i], 0);
    }
    if repeats.len() > 0 {
        let earlier = repeats.drop_last();
        assert forall|i: int| 0 <= i < earlier.len() implies (#[trigger] earlier[i]).pairing_key
            == request.pairing_key by {
            assert(earlier[i] == repeats[i]);
        }
        lemma_used_code_stays_invalid(
            state,
            request,
            candidate,
            earlier,
            later_candidates.drop_last(),
        );
        assert(repeats.last() == repeats[repeats.len() - 1]);
        lemma_code_single_use(state, request, candidate, repeats.last(), later_candidates.last());
    }
}

/// Handles a pairing request without a key: the device is entered into the
/// registry, replacing an earlier entry under the same identifier, and the
/// request is accepted.
pub fn pair_legacy(registry: &mut DeviceRegistry, device: DeviceInfo) -> (reply: Message)
    ensures
        final(registry)@ == old(registry)@.insert(device@.id, device@),
        reply@ == (MessageView::PairingAccepted { device_id: device@.id }),
{
    let device_id = device.id.to_string();
    registry.insert(device);
    Message::PairingAccepted { device_id }
}

/// Handles a keyed pairing request, given the number drawn for the next
/// code. With the live code as key, the device is entered into the registry,
/// the code is replaced, and the request is accepted; with any other key,
/// nothing changes and the request is rejected.
pub fn pair_with_key(
    registry: &mut DeviceRegistry,
    code: &mut PairingCode,
    id: &str,
    name: &str,
    device_type: &str,
    capabilities: &Vec<String>,
    pairing_key: &str,
    candidate: u32,
) -> (reply: Message)
    ensures
        ({
            let before = PairingState { devices: old(registry)@, code: old(code).number() };
            let request = KeyedRequest {
                id: id@,
                name: name@,
                device_type: device_type@,
                capabilities: capabilities.deep_view(),
                pairing_key: pairing_key@,
            };
            let after = before.after_keyed(request, candidate as nat);
            &&& final(registry)@ == after.devices
            &&& final(code).number() == after.code
            &&& reply@ == before.keyed_reply(request)
        }),
{
    if code.matches(pairing_key) {
        let device = DeviceInfo {
            id: DeviceId::new(id),
            name: String::from_str(name),
            device_type: DeviceType::parse_lenient(device_type),
            capabilities: PluginType::parse_all(capabilities),
        };
        registry.insert(device);
        code.rotate(candidate);
        Message::PairingAccepted { device_id: String::from_str(id) }
    } else {
        Message::PairingRejected {
            device_id: String::from_str(id),
            reason: String::from_str(INVALID_KEY_REASON),
        }
    }
}

} // verus!
