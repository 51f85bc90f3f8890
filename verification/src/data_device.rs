//! Drag and drop from a source that the compositor controls: choosing the
//! action, the state of an offer, and the grab that follows the pointer.

use vstd::prelude::*;
use vstd::string::*;

verus! {

/// Bits of the action that copies the data.
pub const DND_COPY: u32 = 1;

/// Bits of the action that moves the data.
pub const DND_MOVE: u32 = 2;

/// Bits of the action that asks the user what to do.
pub const DND_ASK: u32 = 4;

/// A set of drag and drop actions.
#[derive(Clone, Copy, Debug, PartialEq, Eq, Structural)]
pub struct DndAction {
    /// One bit for each action of the set.
    pub bits: u32,
}

/// What a compositor-controlled source offers.
#[derive(Debug)]
pub struct SourceMetadata {
    /// The mime types in which the data can be had.
    pub mime_types: Vec<String>,
    /// The actions the source supports.
    pub dnd_action: DndAction,
}

/// The state that all offers of one visit of the pointer share.
#[derive(Clone, Copy, Debug, PartialEq, Eq, Structural)]
pub struct OfferData {
    /// Whether the offer can still be used.
    pub active: bool,
    /// Whether the user dropped onto the client.
    pub dropped: bool,
    /// Whether the client accepted a mime type.
    pub accepted: bool,
    /// The action that was chosen for the client.
    pub chosen_action: DndAction,
}

/// A request of a client on its offer.
#[derive(Debug)]
pub enum OfferRequest {
    /// The client accepts a mime type, or none.
    Accept { mime_type: Option<String> },
    /// The client wants the data in a mime type, written to a descriptor.
    Receive { mime_type: String, fd: i32 },
    /// The client destroys the offer.
    Destroy,
    /// The client is done with the data.
    Finish,
    /// The client names the actions it supports and the one it prefers.
    SetActions { dnd_actions: DndAction, preferred_action: DndAction },
}

/// What the source is told about its drag and drop.
#[derive(Debug)]
pub enum ServerDndEvent {
    /// The client chose an action.
    Action(DndAction),
    /// The user dropped the data.
    Dropped,
    /// The drag and drop was cancelled.
    Cancelled,
    /// The client wants the data in a mime type, written to a descriptor.
    Send { mime_type: String, fd: i32 },
    /// The client is done with the data.
    Finished,
}

/// A protocol error of a client on its offer.
#[derive(Clone, Copy, Debug, PartialEq, Eq, Structural)]
pub enum OfferError {
    /// Finish on an offer that is no longer active.
    FinishInactive,
    /// Finish on an offer that was not accepted.
    FinishUnaccepted,
    /// Finish on an offer that was not dropped.
    FinishUndropped,
    /// Finish on an offer without a chosen action.
    FinishWithoutAction,
    /// A preferred action that is not one single action or none.
    InvalidAction,
}

/// What a request of a client leads to.
#[derive(Debug)]
pub enum OfferReply {
    /// Nothing is sent and nothing is told.
    Nothing,
    /// The source is told.
    Event(ServerDndEvent),
    /// The client is sent the chosen action, and the source is told of it.
    ActionChosen(DndAction),
    /// The client is sent a protocol error.
    Error(OfferError),
}

impl DndAction {
    /// Whether every action of `other` is in the set.
    pub open spec fn includes(self, other: DndAction) -> bool {
        self.bits & other.bits == other.bits
    }

    /// Whether the set is one single action.
    pub open spec fn single(self) -> bool {
        self.bits == DND_MOVE || self.bits == DND_COPY || self.bits == DND_ASK
    }

    /// The empty set of actions.
    pub fn empty() -> (r: DndAction)
        ensures
            r.bits == 0,
    {
        DndAction { bits: 0 }
    }

    /// Tells whether the set is empty.
    pub fn is_empty(&self) -> (r: bool)
        ensures
            r == (self.bits == 0),
    {
        self.bits == 0
    }

    /// Tells whether every action of `other` is in the set.
    pub fn contains(&self, other: DndAction) -> (r: bool)
        ensures
            r == self.includes(other),
    {
        self.bits & other.bits == other.bits
    }

    /// The actions that are in both sets.
    pub fn intersection(&self, other: DndAction) -> (r: DndAction)
        ensures
            r.bits == self.bits & other.bits,
    {
        DndAction { bits: self.bits & other.bits }
    }
}

/// The action chosen among the available ones: the preferred action where it
/// is a single action and available, else the first available of ask, copy
/// and move, else none.
pub open spec fn chosen_action(available: DndAction, preferred: DndAction) -> DndAction {
    if preferred.single() && available.includes(preferred) {
        preferred
    } else if available.includes(DndAction { bits: DND_ASK }) {
        DndAction { bits: DND_ASK }
    } else if available.includes(DndAction { bits: DND_COPY }) {
        DndAction { bits: DND_COPY }
    } else if available.includes(DndAction { bits: DND_MOVE }) {
        DndAction { bits: DND_MOVE }
    } else {
        DndAction { bits: 0 }
    }
}

/// Chooses the action of a drag and drop. The preferred action is taken
/// where it is a single action and available. Otherwise the first available
/// of ask, copy and move is taken, and none where none of them is available.
pub fn default_action_chooser(available: DndAction, preferred: DndAction) -> (r: DndAction)
    ensures
        r == chosen_action(available, preferred),
{
    let single = preferred.bits == DND_MOVE || preferred.bits == DND_COPY || preferred.bits
        == DND_ASK;
    if single && available.contains(preferred) {
        preferred
    } else if available.contains(DndAction { bits: DND_ASK }) {
        DndAction { bits: DND_ASK }
    } else if available.contains(DndAction { bits: DND_COPY }) {
        DndAction { bits: DND_COPY }
    } else if available.contains(DndAction { bits: DND_MOVE }) {
        DndAction { bits: DND_MOVE }
    } else {
        DndAction::empty()
    }
}

/// Whether the list holds a mime type.
pub open spec fn offers_type(mime_types: Seq<String>, mime_type: Seq<char>) -> bool {
    exists|i: int| 0 <= i < mime_types.len() && (#[trigger] mime_types[i])@ == mime_type
}

/// Tells whether the source offers a mime type.
pub fn has_mime_type(mime_types: &Vec<String>, mime_type: &String) -> (r: bool)
    ensures
        r == offers_type(mime_types@, mime_type@),
{
    let mut i: usize = 0;
    while i < mime_types.len()
        invariant
            i <= mime_types.len(),
            forall|j: int| 0 <= j < i ==> (#[trigger] mime_types@[j])@ != mime_type@,
        decreases mime_types.len() - i,
    {
        if mime_types[i] == *mime_type {
            return true;
        }
        i += 1;
    }
    false
}

impl OfferData {
    /// The state of the offers of a new visit: usable, not yet dropped,
    /// accepted until the client says otherwise, with no action chosen.
    pub fn new() -> (r: OfferData)
        ensures
            r == (OfferData {
                active: true,
                dropped: false,
                accepted: true,
                chosen_action: DndAction { bits: 0 },
            }),
    {
        OfferData { active: true, dropped: false, accepted: true, chosen_action: DndAction::empty() }
    }

    /// The error of a finish request in this state, if it is one. The checks
    /// are made in this order: active, accepted, dropped, action chosen.
    pub open spec fn finish_fault(self) -> Option<OfferError> {
        if !self.active {
            Some(OfferError::FinishInactive)
        } else if !self.accepted {
            Some(OfferError::FinishUnaccepted)
        } else if !self.dropped {
            Some(OfferError::FinishUndropped)
        } else if self.chosen_action.bits == 0 {
            Some(OfferError::FinishWithoutAction)
        } else {
            None
        }
    }

    /// Whether a preferred action is valid: none, or one single action.
    pub open spec fn valid_preference(preferred: DndAction) -> bool {
        preferred.bits == 0 || preferred.single()
    }

    /// The state after a request.
    pub open spec fn after(self, metadata: SourceMetadata, request: OfferRequest) -> OfferData {
        match request {
            OfferRequest::Accept { mime_type } => OfferData {
                accepted: match mime_type {
                    Some(mime_type) => offers_type(metadata.mime_types@, mime_type@),
                    None => false,
                },
                ..self
            },
            OfferRequest::Receive { .. } => self,
            OfferRequest::Destroy => self,
            OfferRequest::Finish => if self.finish_fault() is None {
                OfferData { active: false, ..self }
            } else {
                self
            },
            OfferRequest::SetActions { dnd_actions, preferred_action } => if Self::valid_preference(
                preferred_action,
            ) {
                OfferData {
                    chosen_action: chosen_action(
                        DndAction { bits: metadata.dnd_action.bits & dnd_actions.bits },
                        preferred_action,
                    ),
                    ..self
                }
            } else {
                self
            },
        }
    }

    /// Handles a request of a client on an offer of this state. Accepting a
    /// mime type counts only where the source offers the type. Data is sent
    /// only in a type that the source offers, and only while the offer is
    /// active. A finish is an error unless the offer is active, accepted and
    /// dropped and an action is chosen; a good finish ends the offer.
    /// Setting the actions is an error unless the preferred action is none
    /// or a single action; else the action is chosen among those that both
    /// sides support.
    pub fn handle_request(&mut self, metadata: &SourceMetadata, request: OfferRequest) -> (r: OfferReply)
        ensures
            *final(self) == old(self).after(*metadata, request),
            match request {
                OfferRequest::Accept { .. } => r is Nothing,
                OfferRequest::Receive { mime_type, fd } => if offers_type(
                    metadata.mime_types@,
                    mime_type@,
                ) && old(self).active {
                    r matches OfferReply::Event(ServerDndEvent::Send { mime_type: sent, fd: to })
                        && sent == mime_type && to == fd
                } else {
                    r is Nothing
                },
                OfferRequest::Destroy => r is Nothing,
                OfferRequest::Finish => match old(self).finish_fault() {
                    Some(error) => r matches OfferReply::Error(e) && e == error,
                    None => r matches OfferReply::Event(ServerDndEvent::Finished),
                },
                OfferRequest::SetActions { dnd_actions, preferred_action } => if Self::valid_preference(
                    preferred_action,
                ) {
                    r matches OfferReply::ActionChosen(action) && action == final(self).chosen_action
                } else {
                    r matches OfferReply::Error(e) && e == OfferError::InvalidAction
                },
            },
    {
        match request {
            OfferRequest::Accept { mime_type } => {
                self.accepted = match mime_type {
                    Some(mime_type) => has_mime_type(&metadata.mime_types, &mime_type),
                    None => false,
                };
                OfferReply::Nothing
            },
            OfferRequest::Receive { mime_type, fd } => {
                if has_mime_type(&metadata.mime_types, &mime_type) && self.active {
                    OfferReply::Event(ServerDndEvent::Send { mime_type, fd })
                } else {
                    OfferReply::Nothing
                }
            },
            OfferRequest::Destroy => OfferReply::Nothing,
            OfferRequest::Finish => {
                if !self.active {
                    return OfferReply::Error(OfferError::FinishInactive);
                }
                if !self.accepted {
                    return OfferReply::Error(OfferError::FinishUnaccepted);
                }
                if !self.dropped {
                    return OfferReply::Error(OfferError::FinishUndropped);
                }
                if self.chosen_action.is_empty() {
                    return OfferReply::Error(OfferError::FinishWithoutAction);
                }
                self.active = false;
                OfferReply::Event(ServerDndEvent::Finished)
            },
            OfferRequest::SetActions { dnd_actions, preferred_action } => {
                let valid = preferred_action.bits == 0 || preferred_action.bits == DND_MOVE
                    || preferred_action.bits == DND_COPY || preferred_action.bits == DND_ASK;
                if !valid {
                    return OfferReply::Error(OfferError::InvalidAction);
                }
                let possible = metadata.dnd_action.intersection(dnd_actions);
                self.chosen_action = default_action_chooser(possible, preferred_action);
                OfferReply::ActionChosen(self.chosen_action)
            },
        }
    }
}

/// A data device of a client that is known to the seat.
#[derive(Clone, Copy, Debug, PartialEq, Eq, Structural)]
pub struct DataDevice {
    /// Identifier of the device.
    pub device: u32,
    /// Identifier of the client that owns the device.
    pub client: u32,
}

/// The surface under the pointer.
#[derive(Clone, Copy, Debug, PartialEq, Eq, Structural)]
pub struct Focus {
    /// Identifier of the surface.
    pub surface: u32,
    /// Identifier of the client that owns the surface, while the surface exists.
    pub client: Option<u32>,
}

/// What a data device is sent.
#[derive(Clone, Copy, Debug, PartialEq, Eq, Structural)]
pub enum GrabAction {
    /// The pointer left the client's surface.
    Leave { device: u32 },
    /// A new offer is made and advertised, and the pointer entered the surface.
    Enter { device: u32, surface: u32 },
    /// The pointer moved over the surface.
    Motion { device: u32 },
    /// The data was dropped onto the surface.
    Drop { device: u32 },
}

/// What the release of the last button led to.
#[derive(Debug)]
pub struct DropOutcome {
    /// What the data devices are sent, in order.
    pub actions: Vec<GrabAction>,
    /// Whether the drop was good: the client had accepted and an action was chosen.
    pub validated: bool,
}

/// The grab of the pointer during a drag and drop from the compositor.
#[derive(Clone, Copy, Debug, PartialEq, Eq, Structural)]
pub struct ServerDnDGrab {
    /// The surface that the pointer is over, once it entered one.
    pub current_focus: Option<u32>,
    /// The client that owns that surface.
    pub focus_client: Option<u32>,
    /// The state of the offers of this visit.
    pub offer_data: Option<OfferData>,
}

/// One message for each of the first `n` devices that the client owns.
pub open spec fn for_client(devices: Seq<DataDevice>, client: u32, make: spec_fn(u32) -> GrabAction, n: int)
    -> Seq<GrabAction>
    decreases n,
{
    if n <= 0 || n > devices.len() {
        Seq::empty()
    } else {
        let before = for_client(devices, client, make, n - 1);
        if devices[n - 1].client == client {
            before.push(make(devices[n - 1].device))
        } else {
            before
        }
    }
}

/// The messages of one kind for the first `n` devices that the client owns.
pub open spec fn leaves(devices: Seq<DataDevice>, client: u32) -> Seq<GrabAction> {
    for_client(devices, client, |device: u32| GrabAction::Leave { device }, devices.len() as int)
}

/// The enter messages for the devices that the client owns.
pub open spec fn enters(devices: Seq<DataDevice>, client: u32, surface: u32) -> Seq<GrabAction> {
    for_client(
        devices,
        client,
        |device: u32| GrabAction::Enter { device, surface },
        devices.len() as int,
    )
}

/// The motion messages for the devices that the client owns.
pub open spec fn motions(devices: Seq<DataDevice>, client: u32) -> Seq<GrabAction> {
    for_client(devices, client, |device: u32| GrabAction::Motion { device }, devices.len() as int)
}

/// The drop messages for the devices that the client owns.
pub open spec fn drops(devices: Seq<DataDevice>, client: u32) -> Seq<GrabAction> {
    for_client(devices, client, |device: u32| GrabAction::Drop { device }, devices.len() as int)
}

impl ServerDnDGrab {
    /// Whether the pointer's surface changed.
    pub open spec fn focus_changed(self, focus: Option<Focus>) -> bool {
        match focus {
            Some(focus) => self.current_focus != Some(focus.surface),
            None => self.current_focus is Some,
        }
    }

    /// The grab after the pointer left the surface it was over, if it did.
    pub open spec fn left(self, focus: Option<Focus>) -> ServerDnDGrab {
        if self.focus_changed(focus) && self.current_focus is Some {
            ServerDnDGrab { current_focus: None, focus_client: None, offer_data: None }
        } else {
            self
        }
    }

    /// The state of the offers that the grab gave up when the pointer left:
    /// they can no longer be used.
    pub open spec fn retired(self, focus: Option<Focus>) -> Option<OfferData> {
        if self.focus_changed(focus) && self.current_focus is Some {
            match self.offer_data {
                Some(data) => Some(OfferData { active: false, ..data }),
                None => None,
            }
        } else {
            None
        }
    }

    /// The grab after a motion of the pointer.
    pub open spec fn after_motion(self, focus: Option<Focus>) -> ServerDnDGrab {
        let left = self.left(focus);
        match focus {
            Some(Focus { surface, client: Some(client) }) => if left.current_focus is None {
                ServerDnDGrab {
                    current_focus: Some(surface),
                    focus_client: Some(client),
                    offer_data: Some(
                        OfferData {
                            active: true,
                            dropped: false,
                            accepted: true,
                            chosen_action: DndAction { bits: 0 },
                        },
                    ),
                }
            } else {
                left
            },
            _ => left,
        }
    }

    /// What the data devices are sent after a motion of the pointer: the
    /// devices of the client it left are told so; then the devices of the
    /// client it is over are sent an offer and an enter where it entered,
    /// and a motion where it stayed.
    pub open spec fn motion_actions(self, focus: Option<Focus>, devices: Seq<DataDevice>) -> Seq<
        GrabAction,
    > {
        let left = self.left(focus);
        let leaving = if self.focus_changed(focus) && self.current_focus is Some
            && self.focus_client is Some {
            leaves(devices, self.focus_client->0)
        } else {
            Seq::empty()
        };
        match focus {
            Some(Focus { surface, client: Some(client) }) => if left.current_focus is None {
                leaving + enters(devices, client, surface)
            } else {
                leaving + motions(devices, client)
            },
            _ => leaving,
        }
    }

    /// Whether a drop would be good: the client accepted and an action is chosen.
    pub open spec fn validated(self) -> bool {
        match self.offer_data {
            Some(data) => data.accepted && data.chosen_action.bits != 0,
            None => false,
        }
    }

    /// The grab after the last button was released: a good drop is noted in
    /// the state of the offers, any other ends their use.
    pub open spec fn after_drop(self) -> ServerDnDGrab {
        match self.offer_data {
            Some(data) => ServerDnDGrab {
                offer_data: Some(
                    if self.validated() {
                        OfferData { dropped: true, ..data }
                    } else {
                        OfferData { active: false, ..data }
                    },
                ),
                ..self
            },
            None => self,
        }
    }

    /// What the data devices are sent after the last button was released:
    /// the devices of the client under the pointer are sent a drop where the
    /// drop is good, and a leave where it is not.
    pub open spec fn drop_actions(self, devices: Seq<DataDevice>) -> Seq<GrabAction> {
        if self.current_focus is Some && self.focus_client is Some {
            if self.validated() {
                drops(devices, self.focus_client->0)
            } else {
                leaves(devices, self.focus_client->0)
            }
        } else {
            Seq::empty()
        }
    }

    /// A grab whose pointer is over no surface yet.
    pub fn new() -> (r: ServerDnDGrab)
        ensures
            r == (ServerDnDGrab { current_focus: None, focus_client: None, offer_data: None }),
    {
        ServerDnDGrab { current_focus: None, focus_client: None, offer_data: None }
    }

    /// Follows a motion of the pointer, given the surface it is over now and
    /// the data devices of the seat. Returns what the devices are sent, and
    /// the state of the offers that the grab gave up, if it gave one up. A
    /// surface whose client is gone is not entered.
    pub fn motion(&mut self, focus: Option<Focus>, devices: &Vec<DataDevice>) -> (r: (
        Vec<GrabAction>,
        Option<OfferData>,
    ))
        ensures
            *final(self) == old(self).after_motion(focus),
            r.0@ == old(self).motion_actions(focus, devices@),
            r.1 == old(self).retired(focus),
    {
        let mut actions: Vec<GrabAction> = Vec::new();
        let mut retired: Option<OfferData> = None;
        let changed = match (focus, self.current_focus) {
            (Some(focus), Some(current)) => focus.surface != current,
            (Some(_), None) => true,
            (None, current) => current.is_some(),
        };
        if changed && self.current_focus.is_some() {
            if let Some(client) = self.focus_client {
                let mut i: usize = 0;
                while i < devices.len()
                    invariant
                        i <= devices.len(),
                        actions@ == for_client(
                            devices@,
                            client,
                            |device: u32| GrabAction::Leave { device },
                            i as int,
                        ),
                    decreases devices.len() - i,
                {
                    if devices[i].client == client {
                        actions.push(GrabAction::Leave { device: devices[i].device });
                    }
                    i += 1;
                }
            }
            if let Some(data) = self.offer_data {
                retired = Some(OfferData { active: false, ..data });
            }
            self.current_focus = None;
            self.focus_client = None;
            self.offer_data = None;
        }
        let ghost leaving = actions@;
        if let Some(Focus { surface, client: Some(client) }) = focus {
            let entering = self.current_focus.is_none();
            let mut i: usize = 0;
            while i < devices.len()
                invariant
                    i <= devices.len(),
                    actions@ == leaving + if entering {
                        for_client(
                            devices@,
                            client,
                            |device: u32| GrabAction::Enter { device, surface },
                            i as int,
                        )
                    } else {
                        for_client(
                            devices@,
                            client,
                            |device: u32| GrabAction::Motion { device },
                            i as int,
                        )
                    },
                decreases devices.len() - i,
            {
                if devices[i].client == client {
                    if entering {
                        actions.push(GrabAction::Enter { device: devices[i].device, surface });
                    } else {
                        actions.push(GrabAction::Motion { device: devices[i].device });
                    }
                }
                i += 1;
            }
            if entering {
                self.offer_data = Some(OfferData::new());
                self.current_focus = Some(surface);
                self.focus_client = Some(client);
            }
        }
        (actions, retired)
    }

    /// Follows a change of the pointer's buttons. While a button is still
    /// down nothing happens. When the last one is released the drag ends:
    /// the devices under the pointer are sent a drop or a leave, the state of
    /// the offers takes note, and the source is to be told that the data was
    /// dropped, and that the drag was cancelled where the drop was not good.
    pub fn button(&mut self, buttons_down: usize, devices: &Vec<DataDevice>) -> (r: Option<DropOutcome>)
        ensures
            buttons_down > 0 ==> r is None && *final(self) == *old(self),
            buttons_down == 0 ==> r is Some && *final(self) == old(self).after_drop() && r->0.actions@
                == old(self).drop_actions(devices@) && r->0.validated == old(self).validated(),
    {
        if buttons_down > 0 {
            return None;
        }
        let validated = match self.offer_data {
            Some(data) => data.accepted && !data.chosen_action.is_empty(),
            None => false,
        };
        let mut actions: Vec<GrabAction> = Vec::new();
        if self.current_focus.is_some() {
            if let Some(client) = self.focus_client {
                let mut i: usize = 0;
                while i < devices.len()
                    invariant
                        i <= devices.len(),
                        actions@ == if validated {
                            for_client(
                                devices@,
                                client,
                                |device: u32| GrabAction::Drop { device },
                                i as int,
                            )
                        } else {
                            for_client(
                                devices@,
                                client,
                                |device: u32| GrabAction::Leave { device },
                                i as int,
                            )
                        },
                    decreases devices.len() - i,
                {
                    if devices[i].client == client {
                        if validated {
                            actions.push(GrabAction::Drop { device: devices[i].device });
                        } else {
                            actions.push(GrabAction::Leave { device: devices[i].device });
                        }
                    }
                    i += 1;
                }
            }
        }
        if let Some(data) = self.offer_data {
            self.offer_data = Some(
                if validated {
                    OfferData { dropped: true, ..data }
                } else {
                    OfferData { active: false, ..data }
                },
            );
        }
        Some(DropOutcome { actions, validated })
    }
}

} // verus!
