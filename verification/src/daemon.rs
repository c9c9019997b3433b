//! The daemon's state and its answer to each message.
//!
//! The daemon owns the device registry, the live pairing code and the
//! capability handlers. Pairing requests are answered by the daemon itself;
//! every other message goes to the dispatcher. Reading from and writing to
//! connections, saving the registry and running the discovery service are
//! the caller's part.

use vstd::prelude::*;
use vstd::string::StringExecFns;
use crate::device::{DeviceId, DeviceInfo, DeviceInfoView, DeviceType, PluginType};
use crate::discovery::{
    advertisement, announced_host, announced_properties, apply_discovery, property_texts,
    table_after, DiscoveryEvent, ServiceAdvertisement, ADVERTISED_ADDRESS,
};
use crate::dispatch::{is_run, selection_of, Dispatcher, Outcome, Plugin};
use crate::error::DaemonError;
use crate::message::{message_type_name, Message, MessageView, MDNS_SERVICE_TYPE};
use crate::pairing::{
    draw_candidate, is_code, pair_legacy, pair_with_key, KeyedRequest, PairingCode, PairingState,
    CODE_MIN,
};
use crate::registry::{table_of, views, DeviceRegistry};
use crate::text::decimal;

verus! {

/// What the daemon did with a message.
#[derive(Debug, Clone, PartialEq)]
pub struct Handled {
    /// The message to send back, if any.
    pub response: Option<Message>,
    /// Whether a pairing changed the registry, which is then to be saved.
    pub persist: bool,
}

impl Handled {
    /// The response as plain values.
    pub open spec fn reply(&self) -> Option<MessageView> {
        match self.response {
            Some(message) => Some(message@),
            None => None,
        }
    }
}

/// The metadata of the daemon's own device on the machine with the given
/// host name: a desktop with every capability.
pub open spec fn local_device_of(host: Seq<char>) -> DeviceInfoView {
    DeviceInfoView {
        id: "libreconnect-"@ + host,
        name: "LibreConnect Desktop ("@ + host + ")"@,
        device_type: DeviceType::Desktop,
        capabilities: PluginType::every(),
    }
}

/// The daemon, over capability handlers of type `P`.
pub struct Daemon<P: Plugin = Box<dyn Plugin>> {
    registry: DeviceRegistry,
    pairing_code: PairingCode,
    dispatcher: Dispatcher<P>,
    local_device: DeviceInfo,
    port: u16,
}

impl<P: Plugin> Daemon<P> {
    /// The registry's table.
    pub closed spec fn devices(&self) -> Map<Seq<char>, DeviceInfoView> {
        self.registry@
    }

    /// The live pairing code.
    pub closed spec fn code(&self) -> nat {
        self.pairing_code.number()
    }

    /// The capability handlers, in registration order.
    pub closed spec fn handlers(&self) -> Seq<P> {
        self.dispatcher.handlers()
    }

    /// The daemon's own device.
    pub closed spec fn local(&self) -> DeviceInfoView {
        self.local_device@
    }

    /// The port that the daemon listens on.
    pub closed spec fn listening_port(&self) -> u16 {
        self.port
    }

    /// What pairing works on.
    pub open spec fn pairing_state(&self) -> PairingState {
        PairingState { devices: self.devices(), code: self.code() }
    }

    /// Whether `after` and `handled` are what becomes of the daemon `before`
    /// and what it hands back when it is given `message` from `sender`, with
    /// `candidate` drawn for the next pairing code.
    ///
    /// A pairing request without a key enters the device and is accepted. A
    /// keyed request is held against the live code. Every other message
    /// leaves registry and code alone and is routed over the handlers: the
    /// response is that of the first handler that answers.
    pub open spec fn handles(
        before: &Daemon<P>,
        after: &Daemon<P>,
        message: MessageView,
        sender: Seq<char>,
        candidate: nat,
        handled: Handled,
    ) -> bool {
        let state = before.pairing_state();
        &&& after.handlers().len() == before.handlers().len()
        &&& after.local() == before.local()
        &&& after.listening_port() == before.listening_port()
        &&& match message {
            MessageView::RequestPairing(device) => {
                &&& after.devices() == state.after_legacy(device).devices
                &&& after.code() == state.code
                &&& handled.persist
                &&& handled.reply() == Some(MessageView::PairingAccepted { device_id: device.id })
            },
            MessageView::RequestPairingWithKey {
                id,
                name,
                device_type,
                capabilities,
                pairing_key,
            } => {
                let request = KeyedRequest { id, name, device_type, capabilities, pairing_key };
                &&& after.devices() == state.after_keyed(request, candidate).devices
                &&& after.code() == state.after_keyed(request, candidate).code
                &&& handled.persist == state.admits(request)
                &&& handled.reply() == Some(state.keyed_reply(request))
            },
            _ => {
                &&& after.devices() == state.devices
                &&& after.code() == state.code
                &&& !handled.persist
                &&& exists|run: Seq<Outcome>|
                    is_run(before.handlers(), message, sender, run) && handled.reply()
                        == selection_of(run).response
            },
        }
    }

    /// Creates the daemon of the machine with the given host name: it
    /// listens on `port`, knows the devices of the saved list, routes over
    /// the given handlers, and shows a freshly drawn pairing code.
    pub fn new(
        port: u16,
        host_name: &str,
        saved_devices: &Vec<DeviceInfo>,
        plugins: Vec<P>,
    ) -> (daemon: Daemon<P>)
        ensures
            daemon.listening_port() == port,
            daemon.local() == local_device_of(host_name@),
            daemon.devices() == table_of(views(saved_devices@)),
            daemon.handlers() == plugins@,
            is_code(daemon.code()),
    {
        let mut id = String::from_str("libreconnect-");
        id.append(host_name);
        let mut name = String::from_str("LibreConnect Desktop (");
        name.append(host_name);
        name.append(")");
        let local_device = DeviceInfo::new(
            id.as_str(),
            name.as_str(),
            DeviceType::Desktop,
            PluginType::all(),
        );
        Daemon {
            registry: DeviceRegistry::load(saved_devices),
            pairing_code: PairingCode::generate(),
            dispatcher: Dispatcher::new(plugins),
            local_device,
            port,
        }
    }

    /// Handles one message from the peer at `addr`, given the number drawn
    /// for the next pairing code.
    pub fn handle_message_with(&mut self, message: Message, addr: &str, candidate: u32) -> (handled:
        Handled)
        ensures
            Daemon::handles(old(self), final(self), message@, addr@, candidate as nat, handled),
    {
        let ghost view = message@;
        match message {
            Message::RequestPairing(device_info) => {
                let reply = pair_legacy(&mut self.registry, device_info);
                Handled { response: Some(reply), persist: true }
            },
            Message::RequestPairingWithKey { id, name, device_type, capabilities, pairing_key } => {
                let reply = pair_with_key(
                    &mut self.registry,
                    &mut self.pairing_code,
                    id.as_str(),
                    name.as_str(),
                    device_type.as_str(),
                    &capabilities,
                    pairing_key.as_str(),
                    candidate,
                );
                let persist = match &reply {
                    Message::PairingAccepted { .. } => true,
                    _ => false,
                };
                Handled { response: Some(reply), persist }
            },
            other => {
                let sender_id = DeviceId::new(addr);
                let dispatched = self.dispatcher.dispatch(&other, &sender_id);
                let handled = Handled { response: dispatched.response, persist: false };
                proof {
                    let run = choose|run: Seq<Outcome>|
                        is_run(old(self).handlers(), view, addr@, run) && dispatched.selection()
                            == selection_of(run);
                    assert(is_run(old(self).handlers(), view, addr@, run) && handled.reply()
                        == selection_of(run).response);
                }
                handled
            },
        }
    }

    /// Handles one message from the peer at `addr`. A pairing code that is
    /// used up is replaced by one drawn here.
    pub fn handle_message(&mut self, message: Message, addr: &str) -> (handled: Handled)
        ensures
            exists|candidate: nat|
                is_code(candidate) && Daemon::handles(
                    old(self),
                    final(self),
                    message@,
                    addr@,
                    candidate,
                    handled,
                ),
    {
        let candidate: u32 = match &message {
            Message::RequestPairingWithKey { .. } => draw_candidate(),
            _ => CODE_MIN,
        };
        let handled = self.handle_message_with(message, addr, candidate);
        assert(is_code(candidate as nat) && Daemon::handles(
            old(self),
            self,
            message@,
            addr@,
            candidate as nat,
            handled,
        ));
        handled
    }

    /// Applies what the discovery service reports to the registry.
    pub fn handle_discovery(&mut self, event: &DiscoveryEvent)
        ensures
            final(self).devices() == table_after(old(self).devices(), *event),
            final(self).code() == old(self).code(),
            final(self).handlers() == old(self).handlers(),
            final(self).local() == old(self).local(),
            final(self).listening_port() == old(self).listening_port(),
    {
        apply_discovery(&mut self.registry, event);
    }

    /// What the daemon announces of itself on the machine with the given
    /// host name.
    pub fn advertisement(&self, host_name: &str) -> (service: ServiceAdvertisement)
        ensures
            service.service_type@ == MDNS_SERVICE_TYPE@,
            service.instance_name@ == self.local().name,
            service.host_name@ == announced_host(host_name@),
            service.address@ == ADVERTISED_ADDRESS@,
            service.port == self.listening_port(),
            property_texts(service.properties@) == announced_properties(
                self.local().capabilities.len(),
            ),
    {
        advertisement(&self.local_device, host_name, self.port)
    }

    /// A snapshot of the registry: every entry once.
    pub fn get_paired_devices(&self) -> (devices: Result<Vec<DeviceInfo>, DaemonError>)
        ensures
            devices matches Ok(list) && table_of(views(list@)) == self.devices() && list.len()
                == self.devices().len(),
    {
        Ok(self.registry.devices())
    }

    /// The daemon's own device.
    pub fn get_local_device(&self) -> (device: &DeviceInfo)
        ensures
            device@ == self.local(),
    {
        &self.local_device
    }

    /// The names that the capability handlers give themselves, in
    /// registration order.
    pub fn get_available_plugins(&self) -> (names: Vec<&'static str>)
        ensures
            names.len() == self.handlers().len(),
            forall|i: int|
                0 <= i < names.len() ==> #[trigger] self.handlers()[i].may_be_named(names@[i]@),
    {
        self.dispatcher.names()
    }

    /// The name of a message's variant, for logs.
    pub fn message_type_name(message: &Message) -> (name: &'static str)
        ensures
            name@ == message@.kind_name(),
    {
        message_type_name(message)
    }

    /// The live pairing code, as the six digits to show to the user.
    pub fn pairing_key(&self) -> (key: String)
        ensures
            key@ == decimal(self.code()),
            key@.len() == 6,
    {
        self.pairing_code.as_string()
    }

    /// The port that the daemon listens on.
    pub fn port(&self) -> (port: u16)
        ensures
            port == self.listening_port(),
    {
        self.port
    }
}

} // verus!
