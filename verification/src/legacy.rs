//! The commit protocol of the legacy, non-atomic mode-setting path.
//!
//! A surface carries a current and a pending state, each a mode and a set of
//! connectors. A commit is a mode-setting operation only while the pending
//! state differs from the current one; otherwise it asks for a page flip and
//! nothing more.

use vstd::prelude::*;
use crate::connector::ConnectorInfo;
use crate::mode::Mode;
use crate::output::{extent_of, physical_size};
use crate::scanner::{eligible, filter_crtcs};
use crate::surface::{Cause, SwapBuffersError};

verus! {

/// Error code of a connector that was not probed at all.
pub const NOT_PROBED: i32 = 0;

/// The mode and the connectors of a CRTC.
#[derive(Debug)]
pub struct State {
    /// The mode, if one is set.
    pub mode: Option<Mode>,
    /// The connectors, each one once.
    pub connectors: Vec<u32>,
}

/// What the device was asked for when an access failed.
#[derive(Clone, Copy, Debug, PartialEq, Eq, Structural)]
pub enum AccessKind {
    /// Setting the CRTC.
    SetCrtc,
    /// Queueing a page flip.
    PageFlip,
    /// Loading a connector's info.
    ConnectorInfo,
    /// Loading an encoder's info.
    EncoderInfo,
    /// Loading the device's resources.
    Resources,
    /// Moving the cursor.
    MoveCursor,
    /// Setting the cursor's image.
    SetCursor,
}

/// How an operation of the legacy path can fail.
#[derive(Clone, Copy, Debug, PartialEq, Eq, Structural)]
pub enum Error {
    /// The device refused an access, with the code the system reported.
    Access { errmsg: AccessKind, source: i32 },
    /// A connector does not support the mode.
    ModeNotSuitable(Mode),
}

/// A call that the caller is asked to make on the device.
#[derive(Clone, Copy, Debug, PartialEq, Eq, Structural)]
pub enum ControlCall {
    /// Set the CRTC to nothing: no framebuffer, no connectors, no mode. This
    /// frees the pipeline of a connector that was taken away.
    ReleasePipeline,
    /// Set the CRTC to the framebuffer, with the pending connectors and the
    /// pending mode.
    ModeSet { framebuffer: u32 },
    /// Flip to the framebuffer and ask for the event that confirms the flip.
    PageFlip { framebuffer: u32 },
}

/// A call on the cursor of a CRTC that the caller is asked to make.
#[derive(Clone, Copy, Debug, PartialEq, Eq, Structural)]
pub enum CursorCall {
    /// Move the cursor to a place.
    Move { x: i32, y: i32 },
    /// Set the cursor's image, with the place of its hot spot in the image.
    SetWithHotspot { x: i32, y: i32 },
    /// Set the cursor's image, without a hot spot.
    SetPlain,
}

/// The calls of a commit, with what the mode-setting call is made with.
#[derive(Debug)]
pub struct CommitPlan {
    /// The calls to make, in order, each one only after the one before it
    /// succeeded.
    pub calls: Vec<ControlCall>,
    /// The connectors that the mode-setting call names.
    pub connectors: Vec<u32>,
    /// The mode that the mode-setting call sets.
    pub mode: Option<Mode>,
}

/// What was read from the device about one connector.
#[derive(Debug)]
pub struct ConnectorProbe {
    /// Handle of the connector.
    pub handle: u32,
    /// The connector's info with its encoders, or the code of the failure to
    /// load it.
    pub connector: Result<ConnectorInfo, i32>,
    /// The code of the failure to load one of the connector's encoders, if
    /// one failed.
    pub encoder_failure: Option<i32>,
    /// The device's CRTCs, or the code of the failure to load the resources.
    pub crtcs: Result<Vec<u32>, i32>,
}

/// A surface of the legacy path: one CRTC with its current and pending state.
#[derive(Debug)]
pub struct LegacyDrmSurface {
    crtc: u32,
    state: State,
    pending: State,
}

/// Every element of `a` occurs in `b`.
pub open spec fn subset(a: Seq<u32>, b: Seq<u32>) -> bool {
    forall|i: int| 0 <= i < a.len() ==> b.contains(#[trigger] a[i])
}

/// No element occurs twice.
pub open spec fn distinct(a: Seq<u32>) -> bool {
    forall|i: int, j: int| 0 <= i < j < a.len() ==> a[i] != a[j]
}

/// Every encoder of the list can drive the CRTC.
pub open spec fn all_drive(crtcs: Seq<u32>, encoders: Seq<crate::connector::EncoderInfo>, crtc: u32)
    -> bool {
    forall|e: int|
        0 <= e < encoders.len() ==> eligible(crtcs, (#[trigger] encoders[e]).possible_crtcs).contains(crtc)
}

/// The verdict on a connector for a CRTC and a mode. The connector must have
/// been loaded. A connector that does not support the mode is unfit. For one
/// that does, its encoders and the device's resources must have been loaded,
/// and it is fit when every one of its encoders can drive the CRTC.
pub open spec fn connector_verdict(probe: ConnectorProbe, crtc: u32, mode: Mode) -> Result<bool, Error> {
    match probe.connector {
        Err(source) => Err(Error::Access { errmsg: AccessKind::ConnectorInfo, source }),
        Ok(info) => if !info.modes@.contains(mode) {
            Ok(false)
        } else if let Some(source) = probe.encoder_failure {
            Err(Error::Access { errmsg: AccessKind::EncoderInfo, source })
        } else {
            match probe.crtcs {
                Err(source) => Err(Error::Access { errmsg: AccessKind::Resources, source }),
                Ok(crtcs) => Ok(all_drive(crtcs@, info.encoders@, crtc)),
            }
        },
    }
}

/// The verdict on whether a connector supports a mode.
pub open spec fn mode_verdict(probe: Option<ConnectorProbe>, mode: Mode) -> Result<(), Error> {
    match probe {
        None => Err(Error::Access { errmsg: AccessKind::ConnectorInfo, source: NOT_PROBED }),
        Some(probe) => match probe.connector {
            Err(source) => Err(Error::Access { errmsg: AccessKind::ConnectorInfo, source }),
            Ok(info) => if info.modes@.contains(mode) {
                Ok(())
            } else {
                Err(Error::ModeNotSuitable(mode))
            },
        },
    }
}

/// The first probe at or after `from` for the connector.
pub open spec fn probe_of(probes: Seq<ConnectorProbe>, handle: u32, from: int) -> Option<ConnectorProbe>
    decreases probes.len() - from,
{
    if from < 0 || from >= probes.len() {
        None
    } else if probes[from].handle == handle {
        Some(probes[from])
    } else {
        probe_of(probes, handle, from + 1)
    }
}

/// The first failure among the mode verdicts on the connectors at or after
/// `from`, if one fails.
pub open spec fn first_mode_failure(
    connectors: Seq<u32>,
    probes: Seq<ConnectorProbe>,
    mode: Mode,
    from: int,
) -> Option<Error>
    decreases connectors.len() - from,
{
    if from < 0 || from >= connectors.len() {
        None
    } else {
        match mode_verdict(probe_of(probes, connectors[from], 0), mode) {
            Err(error) => Some(error),
            Ok(_) => first_mode_failure(connectors, probes, mode, from + 1),
        }
    }
}

/// The first failure among the verdicts on the probed connectors at or after
/// `from`, if one fails.
pub open spec fn first_failure(probes: Seq<ConnectorProbe>, crtc: u32, mode: Mode, from: int) -> Option<
    Error,
>
    decreases probes.len() - from,
{
    if from < 0 || from >= probes.len() {
        None
    } else {
        match connector_verdict(probes[from], crtc, mode) {
            Err(error) => Some(error),
            Ok(_) => first_failure(probes, crtc, mode, from + 1),
        }
    }
}

/// Every probed connector is fit.
pub open spec fn all_fit(probes: Seq<ConnectorProbe>, crtc: u32, mode: Mode) -> bool {
    forall|i: int|
        0 <= i < probes.len() ==> connector_verdict(#[trigger] probes[i], crtc, mode) == Ok::<
            bool,
            Error,
        >(true)
}

/// The handles of the probed connectors, each one once, in order of their
/// first occurrence among the first `n` probes.
pub open spec fn handles_upto(probes: Seq<ConnectorProbe>, n: int) -> Seq<u32>
    decreases n,
{
    if n <= 0 {
        Seq::empty()
    } else {
        let before = handles_upto(probes, n - 1);
        if before.contains(probes[n - 1].handle) {
            before
        } else {
            before.push(probes[n - 1].handle)
        }
    }
}

/// The first `n` elements of the list, each one once, in order of their
/// first occurrence.
pub open spec fn unique_upto(list: Seq<u32>, n: int) -> Seq<u32>
    decreases n,
{
    if n <= 0 {
        Seq::empty()
    } else {
        let before = unique_upto(list, n - 1);
        if before.contains(list[n - 1]) {
            before
        } else {
            before.push(list[n - 1])
        }
    }
}

/// The mode-setting calls with a framebuffer that `n` commits in a row make,
/// each commit with all its calls succeeding and with no change of the
/// pending state in between.
pub open spec fn repeated_mode_sets(surface: LegacyView, framebuffer: u32, n: nat) -> nat
    decreases n,
{
    if n == 0 {
        0
    } else {
        let calls = surface.commit_calls(framebuffer);
        mode_sets(calls) + repeated_mode_sets(surface.committed(calls.len()), framebuffer, (n - 1) as nat)
    }
}

/// The value of a legacy surface.
pub struct LegacyView {
    /// The CRTC.
    pub crtc: u32,
    /// The mode in effect.
    pub mode: Option<Mode>,
    /// The connectors in effect.
    pub connectors: Seq<u32>,
    /// The mode asked for.
    pub pending_mode: Option<Mode>,
    /// The connectors asked for.
    pub pending_connectors: Seq<u32>,
}

impl LegacyView {
    /// Neither state names a connector twice.
    pub open spec fn wf(self) -> bool {
        distinct(self.connectors) && distinct(self.pending_connectors)
    }

    /// Whether the pending state differs from the current one: in its mode,
    /// or in its set of connectors.
    pub open spec fn differs(self) -> bool {
        self.mode != self.pending_mode || !subset(self.connectors, self.pending_connectors)
            || !subset(self.pending_connectors, self.connectors)
    }

    /// Whether the pending state lacks a connector of the current one.
    pub open spec fn removes(self) -> bool {
        !subset(self.connectors, self.pending_connectors)
    }

    /// The calls of a commit, in order. Without a difference the commit is a
    /// page flip. With one, the pipeline is released first where a connector
    /// was taken away, then the mode is set, then the page is flipped.
    pub open spec fn commit_calls(self, framebuffer: u32) -> Seq<ControlCall> {
        if !self.differs() {
            seq![ControlCall::PageFlip { framebuffer }]
        } else if self.removes() {
            seq![
                ControlCall::ReleasePipeline,
                ControlCall::ModeSet { framebuffer },
                ControlCall::PageFlip { framebuffer },
            ]
        } else {
            seq![ControlCall::ModeSet { framebuffer }, ControlCall::PageFlip { framebuffer }]
        }
    }

    /// Number of calls of a commit up to and including the mode-set; zero
    /// where the commit sets no mode.
    pub open spec fn mode_set_end(self) -> nat {
        if !self.differs() {
            0
        } else if self.removes() {
            2
        } else {
            1
        }
    }

    /// The surface after the first `completed` calls of a commit succeeded:
    /// once the mode is set, the pending state is the current one.
    pub open spec fn committed(self, completed: nat) -> LegacyView {
        if self.differs() && completed >= self.mode_set_end() {
            LegacyView { mode: self.pending_mode, connectors: self.pending_connectors, ..self }
        } else {
            self
        }
    }

    /// How a commit ended after its first `completed` calls succeeded and the
    /// next one, if any, failed with the code `source`.
    pub open spec fn commit_result(self, framebuffer: u32, completed: nat, source: i32) -> Result<
        (),
        Error,
    > {
        let calls = self.commit_calls(framebuffer);
        if completed >= calls.len() {
            Ok(())
        } else if calls[completed as int] is PageFlip {
            Err(Error::Access { errmsg: AccessKind::PageFlip, source })
        } else {
            Err(Error::Access { errmsg: AccessKind::SetCrtc, source })
        }
    }
}

/// Number of mode-setting calls with a framebuffer among the calls.
pub open spec fn mode_sets(calls: Seq<ControlCall>) -> nat
    decreases calls.len(),
{
    if calls.len() == 0 {
        0
    } else if calls.last() is ModeSet {
        mode_sets(calls.drop_last()) + 1
    } else {
        mode_sets(calls.drop_last())
    }
}

/// Tells whether the list holds the element.
pub fn holds(list: &Vec<u32>, x: u32) -> (r: bool)
    ensures
        r == list@.contains(x),
{
    let mut i: usize = 0;
    while i < list.len()
        invariant
            i <= list.len(),
            forall|j: int| 0 <= j < i ==> list@[j] != x,
        decreases list.len() - i,
    {
        if list[i] == x {
            return true;
        }
        i += 1;
    }
    false
}

/// Tells whether every element of `a` occurs in `b`.
pub fn is_subset(a: &Vec<u32>, b: &Vec<u32>) -> (r: bool)
    ensures
        r == subset(a@, b@),
{
    let mut i: usize = 0;
    while i < a.len()
        invariant
            i <= a.len(),
            forall|j: int| 0 <= j < i ==> b@.contains(#[trigger] a@[j]),
        decreases a.len() - i,
    {
        if !holds(b, a[i]) {
            return false;
        }
        i += 1;
    }
    true
}

fn has_mode(modes: &Vec<Mode>, mode: Mode) -> (r: bool)
    ensures
        r == modes@.contains(mode),
{
    let mut i: usize = 0;
    while i < modes.len()
        invariant
            i <= modes.len(),
            forall|j: int| 0 <= j < i ==> modes@[j] != mode,
        decreases modes.len() - i,
    {
        if modes[i] == mode {
            return true;
        }
        i += 1;
    }
    false
}

/// Copies a list, leaving out every element that occurred before.
pub fn unique(list: &Vec<u32>) -> (r: Vec<u32>)
    ensures
        r@ == unique_upto(list@, list@.len() as int),
        distinct(r@),
        forall|c: u32| r@.contains(c) <==> list@.contains(c),
{
    let mut out: Vec<u32> = Vec::new();
    let mut i: usize = 0;
    while i < list.len()
        invariant
            i <= list.len(),
            distinct(out@),
            out@ == unique_upto(list@, i as int),
            forall|c: u32| out@.contains(c) <==> list@.take(i as int).contains(c),
        decreases list.len() - i,
    {
        let ghost before = out@;
        let c = list[i];
        if !holds(&out, c) {
            out.push(c);
        }
        proof {
            assert(list@.take(i as int + 1) =~= list@.take(i as int).push(c));
            assert forall|x: u32| out@.contains(x) <==> list@.take(i as int + 1).contains(x) by {
                vstd::seq_lib::lemma_seq_contains_after_push(list@.take(i as int), c, x);
                if out@ != before {
                    vstd::seq_lib::lemma_seq_contains_after_push(before, c, x);
                }
            }
        }
        i += 1;
    }
    assert(list@.take(list@.len() as int) =~= list@);
    out
}

fn copy_list(list: &Vec<u32>) -> (r: Vec<u32>)
    ensures
        r@ == list@,
{
    let mut out: Vec<u32> = Vec::new();
    let mut i: usize = 0;
    while i < list.len()
        invariant
            i <= list.len(),
            out@ == list@.take(i as int),
        decreases list.len() - i,
    {
        out.push(list[i]);
        i += 1;
    }
    out
}

fn every_encoder_drives(crtcs: &Vec<u32>, encoders: &Vec<crate::connector::EncoderInfo>, crtc: u32) -> (r:
    bool)
    ensures
        r == all_drive(crtcs@, encoders@, crtc),
{
    let mut e: usize = 0;
    while e < encoders.len()
        invariant
            e <= encoders.len(),
            forall|j: int|
                0 <= j < e ==> eligible(crtcs@, (#[trigger] encoders@[j]).possible_crtcs).contains(crtc),
        decreases encoders.len() - e,
    {
        let candidates = filter_crtcs(crtcs, encoders[e].possible_crtcs);
        if !holds(&candidates, crtc) {
            return false;
        }
        e += 1;
    }
    true
}

fn find_probe(probes: &Vec<ConnectorProbe>, handle: u32) -> (r: Option<usize>)
    ensures
        match r {
            Some(p) => p < probes@.len() && probe_of(probes@, handle, 0) == Some(probes@[p as int]),
            None => probe_of(probes@, handle, 0) is None,
        },
{
    let mut p: usize = 0;
    while p < probes.len()
        invariant
            p <= probes.len(),
            probe_of(probes@, handle, 0) == probe_of(probes@, handle, p as int),
        decreases probes.len() - p,
    {
        if probes[p].handle == handle {
            return Some(p);
        }
        p += 1;
    }
    None
}

/// Checks whether a connector is fit for a CRTC and a mode, from what was
/// read about it. A connector that could not be loaded is an error. A
/// connector that does not support the mode is unfit. Otherwise a failure to
/// load an encoder or the resources is an error, and the connector is fit
/// when every one of its encoders can drive the CRTC.
pub fn check_connector(probe: &ConnectorProbe, crtc: u32, mode: Mode) -> (r: Result<bool, Error>)
    ensures
        r == connector_verdict(*probe, crtc, mode),
{
    let info = match &probe.connector {
        Ok(info) => info,
        Err(source) => {
            return Err(Error::Access { errmsg: AccessKind::ConnectorInfo, source: *source });
        },
    };
    if !has_mode(&info.modes, mode) {
        return Ok(false);
    }
    if let Some(source) = probe.encoder_failure {
        return Err(Error::Access { errmsg: AccessKind::EncoderInfo, source });
    }
    let crtcs = match &probe.crtcs {
        Ok(crtcs) => crtcs,
        Err(source) => {
            return Err(Error::Access { errmsg: AccessKind::Resources, source: *source });
        },
    };
    Ok(every_encoder_drives(crtcs, &info.encoders, crtc))
}

impl View for LegacyDrmSurface {
    type V = LegacyView;

    closed spec fn view(&self) -> LegacyView {
        LegacyView {
            crtc: self.crtc,
            mode: self.state.mode,
            connectors: self.state.connectors@,
            pending_mode: self.pending.mode,
            pending_connectors: self.pending.connectors@,
        }
    }
}

impl LegacyDrmSurface {
    /// A surface for a CRTC that is in the state `current` and is asked for
    /// the state `pending`. Connectors named twice in a state count once.
    pub fn new(crtc: u32, current: &State, pending: &State) -> (r: LegacyDrmSurface)
        ensures
            r@ == (LegacyView {
                crtc,
                mode: current.mode,
                connectors: unique_upto(current.connectors@, current.connectors@.len() as int),
                pending_mode: pending.mode,
                pending_connectors: unique_upto(pending.connectors@, pending.connectors@.len() as int),
            }),
            r@.wf(),
    {
        LegacyDrmSurface {
            crtc,
            state: State { mode: current.mode, connectors: unique(&current.connectors) },
            pending: State { mode: pending.mode, connectors: unique(&pending.connectors) },
        }
    }

    /// Forgets the state of the CRTC, as when the session comes back and the
    /// hardware has to be set up anew: no mode and no connector counts as in
    /// effect. The pending state stays.
    pub fn invalidate(&mut self)
        requires
            old(self)@.wf(),
        ensures
            final(self)@ == (LegacyView { mode: None, connectors: Seq::empty(), ..old(self)@ }),
            final(self)@.wf(),
    {
        self.state.mode = None;
        self.state.connectors = Vec::new();
    }

    /// The CRTC of the surface.
    pub fn crtc(&self) -> (r: u32)
        ensures
            r == self@.crtc,
    {
        self.crtc
    }

    /// The connectors in effect.
    pub fn current_connectors(&self) -> (r: Vec<u32>)
        ensures
            r@ == self@.connectors,
    {
        copy_list(&self.state.connectors)
    }

    /// The connectors asked for.
    pub fn pending_connectors(&self) -> (r: Vec<u32>)
        ensures
            r@ == self@.pending_connectors,
    {
        copy_list(&self.pending.connectors)
    }

    /// The mode in effect.
    pub fn current_mode(&self) -> (r: Option<Mode>)
        ensures
            r == self@.mode,
    {
        self.state.mode
    }

    /// The mode asked for.
    pub fn pending_mode(&self) -> (r: Option<Mode>)
        ensures
            r == self@.pending_mode,
    {
        self.pending.mode
    }

    /// Asks for one connector more. The connector is checked against the
    /// pending mode, from what was read about it, and joins the pending
    /// connectors when it is fit. An unfit connector is left out without an
    /// error. Without a pending mode nothing is checked and nothing joins.
    pub fn add_connector(&mut self, probe: &ConnectorProbe) -> (r: Result<(), Error>)
        requires
            old(self)@.wf(),
        ensures
            final(self)@.wf(),
            match old(self)@.pending_mode {
                None => r is Ok && final(self)@ == old(self)@,
                Some(mode) => match connector_verdict(*probe, old(self)@.crtc, mode) {
                    Err(error) => r == Err::<(), Error>(error) && final(self)@ == old(self)@,
                    Ok(fit) => r is Ok && final(self)@ == (LegacyView {
                        pending_connectors: if fit && !old(self)@.pending_connectors.contains(
                            probe.handle,
                        ) {
                            old(self)@.pending_connectors.push(probe.handle)
                        } else {
                            old(self)@.pending_connectors
                        },
                        ..old(self)@
                    }),
                },
            },
    {
        let mode = match self.pending.mode {
            Some(mode) => mode,
            None => {
                return Ok(());
            },
        };
        match check_connector(probe, self.crtc, mode) {
            Err(error) => Err(error),
            Ok(fit) => {
                if fit && !holds(&self.pending.connectors, probe.handle) {
                    self.pending.connectors.push(probe.handle);
                }
                Ok(())
            },
        }
    }

    /// Asks for one connector less.
    pub fn remove_connector(&mut self, connector: u32)
        requires
            old(self)@.wf(),
        ensures
            final(self)@.wf(),
            final(self)@ == (LegacyView {
                pending_connectors: old(self)@.pending_connectors.filter(|c: u32| c != connector),
                ..old(self)@
            }),
            !final(self)@.pending_connectors.contains(connector),
            forall|c: u32|
                c != connector ==> (final(self)@.pending_connectors.contains(c) <==> old(
                    self,
                )@.pending_connectors.contains(c)),
    {
        let ghost before = self.pending.connectors@;
        let mut kept: Vec<u32> = Vec::new();
        let mut i: usize = 0;
        proof {
            reveal(Seq::filter);
        }
        while i < self.pending.connectors.len()
            invariant
                i <= self.pending.connectors.len(),
                self.pending.connectors@ == before,
                self@ == old(self)@,
                distinct(before),
                kept@ == before.take(i as int).filter(|c: u32| c != connector),
                distinct(kept@),
                forall|c: u32| kept@.contains(c) <==> (before.take(i as int).contains(c) && c != connector),
            decreases self.pending.connectors.len() - i,
        {
            let c = self.pending.connectors[i];
            let ghost kept_before = kept@;
            proof {
                reveal(Seq::filter);
                assert(before.take(i as int + 1).drop_last() =~= before.take(i as int));
                assert(before.take(i as int + 1) =~= before.take(i as int).push(c));
            }
            if c != connector {
                kept.push(c);
                proof {
                    assert forall|a: int, b: int| 0 <= a < b < kept@.len() implies kept@[a] != kept@[b] by {
                        if b == kept@.len() - 1 {
                            assert(kept_before.contains(kept@[a]));
                            let m = choose|m: int|
                                0 <= m < i && before.take(i as int)[m] == kept@[a];
                        }
                    }
                }
            }
            proof {
                assert forall|x: u32| kept@.contains(x) <==> (before.take(i as int + 1).contains(x) && x
                    != connector) by {
                    vstd::seq_lib::lemma_seq_contains_after_push(before.take(i as int), c, x);
                    if c != connector {
                        vstd::seq_lib::lemma_seq_contains_after_push(kept_before, c, x);
                    }
                }
            }
            i += 1;
        }
        assert(before.take(before.len() as int) =~= before);
        self.pending.connectors = kept;
    }

    /// Asks for exactly the probed connectors. Each one is checked against
    /// the pending mode. The first failed check is the error. Where every
    /// connector is fit, the probed connectors are the pending ones, each
    /// once, in the order probed; where one is unfit nothing changes.
    /// Without a pending mode nothing is checked and nothing changes.
    pub fn set_connectors(&mut self, probes: &Vec<ConnectorProbe>) -> (r: Result<(), Error>)
        requires
            old(self)@.wf(),
        ensures
            final(self)@.wf(),
            match old(self)@.pending_mode {
                None => r is Ok && final(self)@ == old(self)@,
                Some(mode) => match first_failure(probes@, old(self)@.crtc, mode, 0) {
                    Some(error) => r == Err::<(), Error>(error) && final(self)@ == old(self)@,
                    None => r is Ok && final(self)@ == (LegacyView {
                        pending_connectors: if all_fit(probes@, old(self)@.crtc, mode) {
                            handles_upto(probes@, probes@.len() as int)
                        } else {
                            old(self)@.pending_connectors
                        },
                        ..old(self)@
                    }),
                },
            },
    {
        let mode = match self.pending.mode {
            Some(mode) => mode,
            None => {
                return Ok(());
            },
        };
        let mut fit = true;
        let mut list: Vec<u32> = Vec::new();
        let mut i: usize = 0;
        while i < probes.len()
            invariant
                i <= probes.len(),
                self@ == old(self)@,
                old(self)@.wf(),
                old(self)@.pending_mode == Some(mode),
                first_failure(probes@, self@.crtc, mode, 0) == first_failure(
                    probes@,
                    self@.crtc,
                    mode,
                    i as int,
                ),
                fit == forall|j: int|
                    0 <= j < i ==> connector_verdict(#[trigger] probes@[j], self@.crtc, mode) == Ok::<
                        bool,
                        Error,
                    >(true),
                list@ == handles_upto(probes@, i as int),
                distinct(list@),
            decreases probes.len() - i,
        {
            match check_connector(&probes[i], self.crtc, mode) {
                Err(error) => {
                    return Err(error);
                },
                Ok(ok) => {
                    if !ok {
                        fit = false;
                    }
                },
            }
            let ghost before = list@;
            if !holds(&list, probes[i].handle) {
                list.push(probes[i].handle);
                assert forall|a: int, b: int| 0 <= a < b < list@.len() implies list@[a] != list@[b] by {
                    if b == list@.len() - 1 {
                        assert(before.contains(list@[a]));
                    }
                }
            }
            i += 1;
        }
        if fit {
            self.pending.connectors = list;
        }
        Ok(())
    }

    /// Asks for a mode, or for none. A mode is checked against every pending
    /// connector in order, from what was read about them: a connector that
    /// was not probed or could not be loaded is an error, and so is one that
    /// does not support the mode. The first failure is the error, and then
    /// nothing changes.
    pub fn use_mode(&mut self, mode: Option<Mode>, probes: &Vec<ConnectorProbe>) -> (r: Result<(), Error>)
        requires
            old(self)@.wf(),
        ensures
            final(self)@.wf(),
            match mode {
                None => r is Ok && final(self)@ == (LegacyView { pending_mode: None, ..old(self)@ }),
                Some(wanted) => match first_mode_failure(
                    old(self)@.pending_connectors,
                    probes@,
                    wanted,
                    0,
                ) {
                    Some(error) => r == Err::<(), Error>(error) && final(self)@ == old(self)@,
                    None => r is Ok && final(self)@ == (LegacyView { pending_mode: mode, ..old(self)@ }),
                },
            },
    {
        if let Some(wanted) = mode {
            let mut i: usize = 0;
            while i < self.pending.connectors.len()
                invariant
                    i <= self.pending.connectors.len(),
                    self@ == old(self)@,
                    old(self)@.wf(),
                    mode == Some(wanted),
                    first_mode_failure(self@.pending_connectors, probes@, wanted, 0)
                        == first_mode_failure(self@.pending_connectors, probes@, wanted, i as int),
                decreases self.pending.connectors.len() - i,
            {
                let connector = self.pending.connectors[i];
                match find_probe(probes, connector) {
                    None => {
                        return Err(
                            Error::Access { errmsg: AccessKind::ConnectorInfo, source: NOT_PROBED },
                        );
                    },
                    Some(p) => match &probes[p].connector {
                        Err(source) => {
                            return Err(
                                Error::Access { errmsg: AccessKind::ConnectorInfo, source: *source },
                            );
                        },
                        Ok(info) => {
                            if !has_mode(&info.modes, wanted) {
                                return Err(Error::ModeNotSuitable(wanted));
                            }
                        },
                    },
                }
                i += 1;
            }
        }
        self.pending.mode = mode;
        Ok(())
    }

    /// Tells whether the pending state differs from the current one.
    pub fn commit_pending(&self) -> (r: bool)
        ensures
            r == self@.differs(),
    {
        let same_mode = match (self.state.mode, self.pending.mode) {
            (Some(a), Some(b)) => a == b,
            (None, None) => true,
            _ => false,
        };
        !same_mode || !is_subset(&self.state.connectors, &self.pending.connectors) || !is_subset(
            &self.pending.connectors,
            &self.state.connectors,
        )
    }

    /// Plans a commit of the pending state with a framebuffer: the calls to
    /// make on the device, in order, each one only after the one before it
    /// succeeded. A mode is set only while the pending state differs from the
    /// current one, and then with the pending connectors and the pending
    /// mode; without a difference the commit is a page flip.
    pub fn commit(&self, framebuffer: u32) -> (r: CommitPlan)
        ensures
            r.calls@ == self@.commit_calls(framebuffer),
            r.connectors@ == self@.pending_connectors,
            r.mode == self@.pending_mode,
            mode_sets(r.calls@) == if self@.differs() {
                1nat
            } else {
                0nat
            },
    {
        let mut calls: Vec<ControlCall> = Vec::new();
        if self.commit_pending() {
            if !is_subset(&self.state.connectors, &self.pending.connectors) {
                calls.push(ControlCall::ReleasePipeline);
            }
            calls.push(ControlCall::ModeSet { framebuffer });
        }
        calls.push(ControlCall::PageFlip { framebuffer });
        proof {
            lemma_mode_sets(self@, framebuffer);
        }
        CommitPlan { calls, connectors: copy_list(&self.pending.connectors), mode: self.pending.mode }
    }

    /// Takes note of how the calls of a commit went: the first `completed`
    /// calls succeeded, and the next one, if there is one, failed with the
    /// code `source`. Once the mode was set, the pending state is the current
    /// one. A failed call is the error: setting the CRTC, or queueing the
    /// page flip.
    pub fn commit_done(&mut self, framebuffer: u32, completed: usize, source: i32) -> (r: Result<(), Error>)
        requires
            old(self)@.wf(),
        ensures
            final(self)@.wf(),
            final(self)@ == old(self)@.committed(completed as nat),
            r == old(self)@.commit_result(framebuffer, completed as nat, source),
    {
        let differs = self.commit_pending();
        let removes = !is_subset(&self.state.connectors, &self.pending.connectors);
        let mode_set_end: usize = if !differs {
            0
        } else if removes {
            2
        } else {
            1
        };
        let total: usize = mode_set_end + 1;
        if differs && completed >= mode_set_end {
            self.state.mode = self.pending.mode;
            self.state.connectors = copy_list(&self.pending.connectors);
        }
        if completed >= total {
            Ok(())
        } else if completed == mode_set_end {
            Err(Error::Access { errmsg: AccessKind::PageFlip, source })
        } else {
            Err(Error::Access { errmsg: AccessKind::SetCrtc, source })
        }
    }

    /// Plans the move of the cursor to a place. Coordinates beyond the
    /// range of the device's coordinates are brought to its end.
    pub fn set_cursor_position(&self, x: u32, y: u32) -> (r: CursorCall)
        ensures
            r == (CursorCall::Move { x: extent_of(x), y: extent_of(y) }),
    {
        let (x, y) = physical_size(Some((x, y)));
        CursorCall::Move { x, y }
    }

    /// Plans the change of the cursor's image: the image is set with its hot
    /// spot first, and without a hot spot where the device refuses that.
    pub fn set_cursor_representation(&self, hotspot: (u32, u32)) -> (r: Vec<CursorCall>)
        ensures
            r@ == seq![
                CursorCall::SetWithHotspot { x: extent_of(hotspot.0), y: extent_of(hotspot.1) },
                CursorCall::SetPlain,
            ],
    {
        let (x, y) = physical_size(Some(hotspot));
        let mut calls: Vec<CursorCall> = Vec::new();
        calls.push(CursorCall::SetWithHotspot { x, y });
        calls.push(CursorCall::SetPlain);
        calls
    }

    /// Plans a page flip to a framebuffer, the steady path while only the
    /// buffer changes.
    pub fn page_flip(&self, framebuffer: u32) -> (r: ControlCall)
        ensures
            r == (ControlCall::PageFlip { framebuffer }),
    {
        ControlCall::PageFlip { framebuffer }
    }
}

/// The result of a move of the cursor, given the code of the failure if the
/// device refused it.
pub fn cursor_moved(failure: Option<i32>) -> (r: Result<(), Error>)
    ensures
        r == match failure {
            Some(source) => Err::<(), Error>(Error::Access { errmsg: AccessKind::MoveCursor, source }),
            None => Ok::<(), Error>(()),
        },
{
    match failure {
        Some(source) => Err(Error::Access { errmsg: AccessKind::MoveCursor, source }),
        None => Ok(()),
    }
}

/// The result of a change of the cursor's image, given how its calls went:
/// the code of the failure of the call with the hot spot, if it failed, and
/// then that of the call without. The change fails only where both calls
/// fail, with the code of the second.
pub fn cursor_set(with_hotspot: Option<i32>, plain: Option<i32>) -> (r: Result<(), Error>)
    ensures
        r == match (with_hotspot, plain) {
            (Some(_), Some(source)) => Err::<(), Error>(
                Error::Access { errmsg: AccessKind::SetCursor, source },
            ),
            _ => Ok::<(), Error>(()),
        },
{
    match (with_hotspot, plain) {
        (Some(_), Some(source)) => Err(Error::Access { errmsg: AccessKind::SetCursor, source }),
        _ => Ok(()),
    }
}

/// The error of a page flip that the device refused: on this path a refused
/// flip means that the context is lost.
pub fn page_flip_failed(source: i32) -> (r: SwapBuffersError)
    ensures
        r == SwapBuffersError::ContextLost(Cause::Other { code: source }),
{
    SwapBuffersError::ContextLost(Cause::Other { code: source })
}

/// A commit sets the mode once while the pending state differs from the
/// current one, and never otherwise.
pub proof fn lemma_mode_sets(surface: LegacyView, framebuffer: u32)
    ensures
        mode_sets(surface.commit_calls(framebuffer)) == if surface.differs() {
            1nat
        } else {
            0nat
        },
{
    let calls = surface.commit_calls(framebuffer);
    reveal_with_fuel(mode_sets, 4);
    if surface.differs() && surface.removes() {
        assert(calls.drop_last().drop_last() =~= seq![ControlCall::ReleasePipeline]);
    }
}

/// However many commits follow one another while the pending state stays as
/// it is, the mode is set once where the pending state differed from the
/// current one at the start, and never where it did not.
pub proof fn lemma_repeated_commits(surface: LegacyView, framebuffer: u32, n: nat)
    ensures
        repeated_mode_sets(surface, framebuffer, n) == if n > 0 && surface.differs() {
            1nat
        } else {
            0nat
        },
    decreases n,
{
    if n > 0 {
        let calls = surface.commit_calls(framebuffer);
        lemma_mode_sets(surface, framebuffer);
        lemma_commit_settles(surface, framebuffer, framebuffer);
        lemma_repeated_commits(surface.committed(calls.len()), framebuffer, (n - 1) as nat);
    }
}

/// After a commit whose calls all succeeded nothing is pending: every commit
/// that follows while the pending state stays as it is sets no mode and only
/// flips the page.
pub proof fn lemma_commit_settles(surface: LegacyView, framebuffer: u32, next: u32)
    ensures
        !surface.committed(surface.commit_calls(framebuffer).len()).differs(),
        surface.committed(surface.commit_calls(framebuffer).len()).commit_calls(next) == seq![
            ControlCall::PageFlip { framebuffer: next },
        ],
        mode_sets(surface.committed(surface.commit_calls(framebuffer).len()).commit_calls(next)) == 0,
        surface.committed(surface.commit_calls(framebuffer).len()).committed(1) == surface.committed(
            surface.commit_calls(framebuffer).len(),
        ),
{
    lemma_mode_sets(surface.committed(surface.commit_calls(framebuffer).len()), next);
}

} // verus!
