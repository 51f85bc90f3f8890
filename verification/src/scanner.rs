//! The connector scanner: which connector is driven by which CRTC.
//!
//! The assignment is greedy on purpose. Connectors are taken in enumeration
//! order, each one's encoders in order, each encoder's CRTCs in order, and the
//! first CRTC that nobody has claimed wins. A connector that finds no free
//! CRTC stays without one. Bindings made by an earlier scan are kept for as
//! long as their connector stays usable, so a display never changes its CRTC
//! while it is plugged in.

use vstd::prelude::*;
use crate::connector::{ConnectorInfo, EncoderInfo, Resources};

verus! {

/// One connector bound to the CRTC that scans out to it.
#[derive(Clone, Copy, Debug, PartialEq, Eq, Structural)]
pub struct Binding {
    /// Handle of the connector.
    pub connector: u32,
    /// Handle of the CRTC.
    pub crtc: u32,
}

/// Whether an encoder's mask admits the CRTC at `index` of the device's list.
/// A mask has 32 bits, so no index from 32 on is ever admitted.
pub open spec fn crtc_allowed(mask: u32, index: int) -> bool {
    0 <= index < 32 && (mask >> (index as u32)) & 1 == 1
}

/// The first `n` CRTCs of the device, filtered by an encoder's mask.
pub open spec fn eligible_upto(crtcs: Seq<u32>, mask: u32, n: int) -> Seq<u32>
    decreases n,
{
    if n <= 0 {
        Seq::empty()
    } else {
        let rest = eligible_upto(crtcs, mask, n - 1);
        if crtc_allowed(mask, n - 1) {
            rest.push(crtcs[n - 1])
        } else {
            rest
        }
    }
}

/// The CRTCs that an encoder with this mask can drive, in enumeration order.
pub open spec fn eligible(crtcs: Seq<u32>, mask: u32) -> Seq<u32> {
    eligible_upto(crtcs, mask, crtcs.len() as int)
}

/// Whether some binding holds this CRTC.
pub open spec fn crtc_claimed(bound: Seq<Binding>, crtc: u32) -> bool {
    exists|i: int| 0 <= i < bound.len() && (#[trigger] bound[i]).crtc == crtc
}

/// Whether some binding holds this connector.
pub open spec fn connector_bound(bound: Seq<Binding>, connector: u32) -> bool {
    exists|i: int| 0 <= i < bound.len() && (#[trigger] bound[i]).connector == connector
}

/// Whether the scanned connectors hold a usable one with this handle.
pub open spec fn connected_in(connectors: Seq<ConnectorInfo>, handle: u32) -> bool {
    exists|i: int|
        0 <= i < connectors.len() && (#[trigger] connectors[i]).handle == handle
            && connectors[i].usable()
}

/// No CRTC and no connector occurs in two bindings.
pub open spec fn injective(bound: Seq<Binding>) -> bool {
    forall|i: int, j: int|
        0 <= i < j < bound.len() ==> (#[trigger] bound[i]).crtc != (#[trigger] bound[j]).crtc
            && bound[i].connector != bound[j].connector
}

/// The first candidate at or after `from` that no binding claims.
pub open spec fn first_unclaimed(candidates: Seq<u32>, bound: Seq<Binding>, from: int) -> Option<u32>
    decreases candidates.len() - from,
{
    if from < 0 || from >= candidates.len() {
        None
    } else if !crtc_claimed(bound, candidates[from]) {
        Some(candidates[from])
    } else {
        first_unclaimed(candidates, bound, from + 1)
    }
}

/// The CRTC that a connector with these encoders gets: the first unclaimed
/// CRTC of the first encoder, at or after `from`, that has one.
pub open spec fn picked(crtcs: Seq<u32>, encoders: Seq<EncoderInfo>, bound: Seq<Binding>, from: int)
    -> Option<u32>
    decreases encoders.len() - from,
{
    if from < 0 || from >= encoders.len() {
        None
    } else {
        match first_unclaimed(eligible(crtcs, encoders[from].possible_crtcs), bound, 0) {
            Some(crtc) => Some(crtc),
            None => picked(crtcs, encoders, bound, from + 1),
        }
    }
}

/// The bindings after one connector had its turn: a usable connector without
/// a binding gets the CRTC picked for it, if there is one.
pub open spec fn bind_step(crtcs: Seq<u32>, bound: Seq<Binding>, connector: ConnectorInfo) -> Seq<
    Binding,
> {
    if connector.usable() && !connector_bound(bound, connector.handle) {
        match picked(crtcs, connector.encoders@, bound, 0) {
            Some(crtc) => bound.push(Binding { connector: connector.handle, crtc }),
            None => bound,
        }
    } else {
        bound
    }
}

/// The bindings after the first `n` connectors had their turn, in order.
pub open spec fn bind_upto(
    crtcs: Seq<u32>,
    connectors: Seq<ConnectorInfo>,
    bound: Seq<Binding>,
    n: int,
) -> Seq<Binding>
    decreases n,
{
    if n <= 0 {
        bound
    } else {
        bind_step(crtcs, bind_upto(crtcs, connectors, bound, n - 1), connectors[n - 1])
    }
}

/// The bindings whose connector is still usable, in their old order.
pub open spec fn survivors(bound: Seq<Binding>, connectors: Seq<ConnectorInfo>) -> Seq<Binding> {
    bound.filter(|b: Binding| connected_in(connectors, b.connector))
}

/// The bindings whose connector is gone or no longer usable, in their old order.
pub open spec fn dropped(bound: Seq<Binding>, connectors: Seq<ConnectorInfo>) -> Seq<Binding> {
    bound.filter(|b: Binding| !connected_in(connectors, b.connector))
}

/// The bindings after a scan: the survivors, then every usable connector
/// without a binding takes its turn in enumeration order.
pub open spec fn rescan(bound: Seq<Binding>, res: Resources) -> Seq<Binding> {
    bind_upto(
        res.crtcs@,
        res.connectors@,
        survivors(bound, res.connectors@),
        res.connectors@.len() as int,
    )
}

/// The assignment that a first scan of a device makes.
pub open spec fn assignment(res: Resources) -> Seq<Binding> {
    rescan(Seq::empty(), res)
}

/// What one scan changed.
#[derive(Debug)]
pub struct DrmScanResult {
    /// Bindings that ended, in the order they were made.
    pub disconnected: Vec<Binding>,
    /// Bindings that were made, in the order of the connectors.
    pub connected: Vec<Binding>,
}

/// Remembers which connector is bound to which CRTC between scans.
#[derive(Debug)]
pub struct DrmScanner {
    bound: Vec<Binding>,
}

/// Applies an encoder's mask to the device's CRTCs: the CRTC at index `i`
/// stays when bit `i` of the mask is set.
pub fn filter_crtcs(crtcs: &Vec<u32>, mask: u32) -> (r: Vec<u32>)
    ensures
        r@ == eligible(crtcs@, mask),
{
    let mut out: Vec<u32> = Vec::new();
    let mut i: usize = 0;
    while i < crtcs.len()
        invariant
            i <= crtcs.len(),
            out@ == eligible_upto(crtcs@, mask, i as int),
        decreases crtcs.len() - i,
    {
        if i < 32 && (mask >> (i as u32)) & 1 == 1 {
            out.push(crtcs[i]);
        }
        i += 1;
    }
    out
}

/// Tells whether a binding holds the CRTC.
pub fn is_crtc_claimed(bound: &Vec<Binding>, crtc: u32) -> (r: bool)
    ensures
        r == crtc_claimed(bound@, crtc),
{
    let mut i: usize = 0;
    while i < bound.len()
        invariant
            i <= bound.len(),
            forall|j: int| 0 <= j < i ==> (#[trigger] bound@[j]).crtc != crtc,
        decreases bound.len() - i,
    {
        if bound[i].crtc == crtc {
            return true;
        }
        i += 1;
    }
    false
}

/// Tells whether a binding holds the connector.
pub fn is_connector_bound(bound: &Vec<Binding>, connector: u32) -> (r: bool)
    ensures
        r == connector_bound(bound@, connector),
{
    let mut i: usize = 0;
    while i < bound.len()
        invariant
            i <= bound.len(),
            forall|j: int| 0 <= j < i ==> (#[trigger] bound@[j]).connector != connector,
        decreases bound.len() - i,
    {
        if bound[i].connector == connector {
            return true;
        }
        i += 1;
    }
    false
}

/// Position of the first usable connector with this handle, at or after `from`.
pub open spec fn usable_position(connectors: Seq<ConnectorInfo>, handle: u32, from: int) -> Option<
    int,
>
    decreases connectors.len() - from,
{
    if from < 0 || from >= connectors.len() {
        None
    } else if connectors[from].handle == handle && connectors[from].usable() {
        Some(from)
    } else {
        usable_position(connectors, handle, from + 1)
    }
}

/// Position of the first usable connector with this handle.
pub fn find_connector(connectors: &Vec<ConnectorInfo>, handle: u32) -> (r: Option<usize>)
    ensures
        match r {
            Some(i) => usable_position(connectors@, handle, 0) == Some(i as int),
            None => usable_position(connectors@, handle, 0) is None,
        },
        r is Some <==> connected_in(connectors@, handle),
        r matches Some(i) ==> i < connectors@.len() && connectors@[i as int].handle == handle
            && connectors@[i as int].usable(),
{
    let mut i: usize = 0;
    while i < connectors.len()
        invariant
            i <= connectors.len(),
            usable_position(connectors@, handle, 0) == usable_position(connectors@, handle, i as int),
            forall|j: int|
                0 <= j < i ==> !((#[trigger] connectors@[j]).handle == handle
                    && connectors@[j].usable()),
        decreases connectors.len() - i,
    {
        if connectors[i].handle == handle && connectors[i].is_usable() {
            return Some(i);
        }
        i += 1;
    }
    None
}

/// Picks the CRTC for a connector with these encoders: the encoders in order,
/// each encoder's CRTCs in order, the first that no binding claims.
pub fn pick_crtc(crtcs: &Vec<u32>, encoders: &Vec<EncoderInfo>, bound: &Vec<Binding>) -> (r: Option<
    u32,
>)
    ensures
        r == picked(crtcs@, encoders@, bound@, 0),
{
    let mut e: usize = 0;
    while e < encoders.len()
        invariant
            e <= encoders.len(),
            picked(crtcs@, encoders@, bound@, 0) == picked(crtcs@, encoders@, bound@, e as int),
        decreases encoders.len() - e,
    {
        let candidates = filter_crtcs(crtcs, encoders[e].possible_crtcs);
        let mut c: usize = 0;
        while c < candidates.len()
            invariant
                c <= candidates.len(),
                e < encoders.len(),
                candidates@ == eligible(crtcs@, encoders@[e as int].possible_crtcs),
                picked(crtcs@, encoders@, bound@, 0) == picked(crtcs@, encoders@, bound@, e as int),
                first_unclaimed(candidates@, bound@, 0) == first_unclaimed(
                    candidates@,
                    bound@,
                    c as int,
                ),
            decreases candidates.len() - c,
        {
            if !is_crtc_claimed(bound, candidates[c]) {
                return Some(candidates[c]);
            }
            c += 1;
        }
        e += 1;
    }
    None
}

impl DrmScanner {
    /// The bindings that the scanner holds, oldest first.
    pub closed spec fn bindings(&self) -> Seq<Binding> {
        self.bound@
    }

    /// No CRTC and no connector is bound twice.
    pub open spec fn wf(&self) -> bool {
        injective(self.bindings())
    }

    /// A scanner that has seen no device yet.
    pub fn new() -> (r: Self)
        ensures
            r.bindings() == Seq::<Binding>::empty(),
            r.wf(),
    {
        DrmScanner { bound: Vec::new() }
    }

    /// The bindings made so far, oldest first.
    pub fn bound(&self) -> (r: &Vec<Binding>)
        ensures
            r@ == self.bindings(),
    {
        &self.bound
    }

    /// The CRTC that drives a connector, if the connector is bound.
    pub fn crtc_for_connector(&self, connector: u32) -> (r: Option<u32>)
        ensures
            r is Some <==> connector_bound(self.bindings(), connector),
            r matches Some(crtc) ==> self.bindings().contains(Binding { connector, crtc }),
    {
        let mut i: usize = 0;
        while i < self.bound.len()
            invariant
                i <= self.bound.len(),
                forall|j: int| 0 <= j < i ==> (#[trigger] self.bound@[j]).connector != connector,
            decreases self.bound.len() - i,
        {
            if self.bound[i].connector == connector {
                return Some(self.bound[i].crtc);
            }
            i += 1;
        }
        None
    }

    /// Scans a device. Bindings whose connector is no longer usable end. Then
    /// every usable connector without a binding, in enumeration order, is
    /// bound to the first CRTC that its encoders allow and nobody claims.
    pub fn scan_connectors(&mut self, res: &Resources) -> (r: DrmScanResult)
        requires
            old(self).wf(),
        ensures
            final(self).wf(),
            final(self).bindings() == rescan(old(self).bindings(), *res),
            r.disconnected@ == dropped(old(self).bindings(), res.connectors@),
            r.connected@ == final(self).bindings().skip(
                survivors(old(self).bindings(), res.connectors@).len() as int,
            ),
    {
        let ghost before = self.bound@;
        proof {
            reveal(Seq::filter);
        }
        let mut kept: Vec<Binding> = Vec::new();
        let mut disconnected: Vec<Binding> = Vec::new();
        let mut i: usize = 0;
        while i < self.bound.len()
            invariant
                i <= self.bound.len(),
                self.bound@ == before,
                kept@ == survivors(before.take(i as int), res.connectors@),
                disconnected@ == dropped(before.take(i as int), res.connectors@),
            decreases self.bound.len() - i,
        {
            let b = self.bound[i];
            proof {
                reveal(Seq::filter);
                assert(before.take(i as int + 1).drop_last() =~= before.take(i as int));
            }
            if find_connector(&res.connectors, b.connector).is_some() {
                kept.push(b);
            } else {
                disconnected.push(b);
            }
            i += 1;
        }
        proof {
            assert(before.take(before.len() as int) =~= before);
            lemma_survivors(before, res.connectors@);
        }
        let ghost base = kept@;
        let mut connected: Vec<Binding> = Vec::new();
        let mut n: usize = 0;
        while n < res.connectors.len()
            invariant
                n <= res.connectors.len(),
                base == survivors(before, res.connectors@),
                kept@ == bind_upto(res.crtcs@, res.connectors@, base, n as int),
                injective(kept@),
                base.len() <= kept@.len(),
                connected@ == kept@.skip(base.len() as int),
            decreases res.connectors.len() - n,
        {
            let connector = &res.connectors[n];
            if connector.is_usable() && !is_connector_bound(&kept, connector.handle) {
                if let Some(crtc) = pick_crtc(&res.crtcs, &connector.encoders, &kept) {
                    let binding = Binding { connector: connector.handle, crtc };
                    proof {
                        lemma_picked_unclaimed(res.crtcs@, connector.encoders@, kept@, 0);
                    }
                    kept.push(binding);
                    connected.push(binding);
                }
            }
            n += 1;
        }
        self.bound = kept;
        DrmScanResult { disconnected, connected }
    }
}

/// Assigns CRTCs to the connectors of a device that was not scanned before.
pub fn scan_connectors(res: &Resources) -> (r: Vec<Binding>)
    ensures
        r@ == assignment(*res),
        injective(r@),
{
    let mut scanner = DrmScanner::new();
    let _ = scanner.scan_connectors(res);
    let DrmScanner { bound } = scanner;
    bound
}

/// A picked CRTC is one that no binding claims.
pub proof fn lemma_picked_unclaimed(
    crtcs: Seq<u32>,
    encoders: Seq<EncoderInfo>,
    bound: Seq<Binding>,
    from: int,
)
    requires
        0 <= from,
    ensures
        picked(crtcs, encoders, bound, from) matches Some(crtc) ==> !crtc_claimed(bound, crtc),
    decreases encoders.len() - from,
{
    if from < encoders.len() {
        let candidates = eligible(crtcs, encoders[from].possible_crtcs);
        lemma_first_unclaimed(candidates, bound, 0);
        lemma_picked_unclaimed(crtcs, encoders, bound, from + 1);
    }
}

/// What `first_unclaimed` finds is a candidate that no binding claims; it
/// finds nothing exactly when every candidate from `from` on is claimed.
pub proof fn lemma_first_unclaimed(candidates: Seq<u32>, bound: Seq<Binding>, from: int)
    requires
        0 <= from,
    ensures
        match first_unclaimed(candidates, bound, from) {
            Some(crtc) => !crtc_claimed(bound, crtc) && candidates.contains(crtc),
            None => forall|j: int|
                from <= j < candidates.len() ==> crtc_claimed(bound, #[trigger] candidates[j]),
        },
    decreases candidates.len() - from,
{
    if from < candidates.len() {
        lemma_first_unclaimed(candidates, bound, from + 1);
    }
}

/// The survivors of a scan are bindings of the old list, each to a connector
/// that is still usable, and they stay injective.
pub proof fn lemma_survivors(bound: Seq<Binding>, connectors: Seq<ConnectorInfo>)
    ensures
        forall|k: int|
            0 <= k < survivors(bound, connectors).len() ==> bound.contains(
                #[trigger] survivors(bound, connectors)[k],
            ) && connected_in(connectors, survivors(bound, connectors)[k].connector),
        injective(bound) ==> injective(survivors(bound, connectors)),
    decreases bound.len(),
{
    reveal(Seq::filter);
    if bound.len() > 0 {
        let shorter = bound.drop_last();
        lemma_survivors(shorter, connectors);
        let sub = survivors(shorter, connectors);
        let all = survivors(bound, connectors);
        assert forall|k: int| 0 <= k < all.len() implies bound.contains(#[trigger] all[k])
            && connected_in(connectors, all[k].connector) by {
            if k < sub.len() {
                let j = choose|j: int| 0 <= j < shorter.len() && shorter[j] == sub[k];
                assert(bound[j] == sub[k]);
            }
        }
        if injective(bound) {
            assert forall|i: int, j: int| 0 <= i < j < all.len() implies (#[trigger] all[i]).crtc != (
            #[trigger] all[j]).crtc && all[i].connector != all[j].connector by {
                if j >= sub.len() {
                    let m = choose|m: int| 0 <= m < shorter.len() && shorter[m] == sub[i];
                    assert(bound[m] == all[i]);
                }
            }
        }
    }
}

/// `a` is the beginning of `b`.
pub open spec fn begins(a: Seq<Binding>, b: Seq<Binding>) -> bool {
    a.len() <= b.len() && forall|i: int| 0 <= i < a.len() ==> a[i] == b[i]
}

/// One turn keeps what was bound, adds at most one binding, binds only a
/// usable connector of its own handle, and keeps the bindings injective.
pub proof fn lemma_bind_step(crtcs: Seq<u32>, bound: Seq<Binding>, connector: ConnectorInfo)
    ensures
        begins(bound, bind_step(crtcs, bound, connector)),
        bind_step(crtcs, bound, connector).len() <= bound.len() + 1,
        bind_step(crtcs, bound, connector).len() == bound.len() + 1 ==> connector.usable()
            && bind_step(crtcs, bound, connector).last().connector == connector.handle,
        injective(bound) ==> injective(bind_step(crtcs, bound, connector)),
{
    let next = bind_step(crtcs, bound, connector);
    if next.len() == bound.len() + 1 {
        lemma_picked_unclaimed(crtcs, connector.encoders@, bound, 0);
        if injective(bound) {
            assert forall|i: int, j: int| 0 <= i < j < next.len() implies (#[trigger] next[i]).crtc != (
            #[trigger] next[j]).crtc && next[i].connector != next[j].connector by {
                assert(next[i] == bound[i]);
            }
        }
    }
}

/// The turns of the first `n` connectors keep what was bound before them and
/// bind only usable connectors of the scanned list.
pub proof fn lemma_bind_upto(
    crtcs: Seq<u32>,
    connectors: Seq<ConnectorInfo>,
    bound: Seq<Binding>,
    n: int,
)
    requires
        n <= connectors.len(),
    ensures
        begins(bound, bind_upto(crtcs, connectors, bound, n)),
        forall|k: int|
            bound.len() <= k < bind_upto(crtcs, connectors, bound, n).len() ==> connected_in(
                connectors,
                (#[trigger] bind_upto(crtcs, connectors, bound, n)[k]).connector,
            ),
        injective(bound) ==> injective(bind_upto(crtcs, connectors, bound, n)),
    decreases n,
{
    if n > 0 {
        lemma_bind_upto(crtcs, connectors, bound, n - 1);
        let before = bind_upto(crtcs, connectors, bound, n - 1);
        lemma_bind_step(crtcs, before, connectors[n - 1]);
        let after = bind_upto(crtcs, connectors, bound, n);
        assert forall|k: int| bound.len() <= k < after.len() implies connected_in(
            connectors,
            (#[trigger] after[k]).connector,
        ) by {
            if k < before.len() {
                assert(after[k] == before[k]);
            }
        }
    }
}

/// Bindings made by earlier turns are still there after later turns.
pub proof fn lemma_bind_upto_grows(
    crtcs: Seq<u32>,
    connectors: Seq<ConnectorInfo>,
    bound: Seq<Binding>,
    m: int,
    n: int,
)
    requires
        m <= n,
    ensures
        begins(bind_upto(crtcs, connectors, bound, m), bind_upto(crtcs, connectors, bound, n)),
    decreases n - m,
{
    if m < n {
        lemma_bind_upto_grows(crtcs, connectors, bound, m, n - 1);
        if n > 0 {
            lemma_bind_step(crtcs, bind_upto(crtcs, connectors, bound, n - 1), connectors[n - 1]);
        }
    }
}

/// Where every binding's connector is usable, all bindings survive and none
/// is dropped.
pub proof fn lemma_all_survive(bound: Seq<Binding>, connectors: Seq<ConnectorInfo>)
    requires
        forall|k: int|
            0 <= k < bound.len() ==> connected_in(connectors, (#[trigger] bound[k]).connector),
    ensures
        survivors(bound, connectors) == bound,
        dropped(bound, connectors) == Seq::<Binding>::empty(),
    decreases bound.len(),
{
    reveal(Seq::filter);
    if bound.len() > 0 {
        lemma_all_survive(bound.drop_last(), connectors);
    }
}

/// A connector that finds every candidate claimed finds them claimed too
/// when more CRTCs are claimed.
pub proof fn lemma_picked_none_grows(
    crtcs: Seq<u32>,
    encoders: Seq<EncoderInfo>,
    fewer: Seq<Binding>,
    more: Seq<Binding>,
    from: int,
)
    requires
        0 <= from,
        forall|crtc: u32| crtc_claimed(fewer, crtc) ==> crtc_claimed(more, crtc),
        picked(crtcs, encoders, fewer, from) is None,
    ensures
        picked(crtcs, encoders, more, from) is None,
    decreases encoders.len() - from,
{
    if from < encoders.len() {
        let candidates = eligible(crtcs, encoders[from].possible_crtcs);
        lemma_first_unclaimed(candidates, fewer, 0);
        lemma_first_unclaimed(candidates, more, 0);
        lemma_picked_none_grows(crtcs, encoders, fewer, more, from + 1);
    }
}

/// A scan keeps the bindings injective: no CRTC drives two connectors and no
/// connector is driven by two CRTCs.
pub proof fn lemma_rescan_injective(bound: Seq<Binding>, res: Resources)
    requires
        injective(bound),
    ensures
        injective(rescan(bound, res)),
{
    lemma_survivors(bound, res.connectors@);
    lemma_bind_upto(
        res.crtcs@,
        res.connectors@,
        survivors(bound, res.connectors@),
        res.connectors@.len() as int,
    );
}

/// Scanning again while nothing changed changes nothing: every binding
/// stays, none ends and none is made.
pub proof fn lemma_rescan_idempotent(bound: Seq<Binding>, res: Resources)
    ensures
        rescan(rescan(bound, res), res) == rescan(bound, res),
        survivors(rescan(bound, res), res.connectors@) == rescan(bound, res),
        dropped(rescan(bound, res), res.connectors@) == Seq::<Binding>::empty(),
{
    let crtcs = res.crtcs@;
    let connectors = res.connectors@;
    let base = survivors(bound, connectors);
    let total = connectors.len() as int;
    let once = rescan(bound, res);
    lemma_survivors(bound, connectors);
    lemma_bind_upto(crtcs, connectors, base, total);
    assert forall|k: int| 0 <= k < once.len() implies connected_in(
        connectors,
        (#[trigger] once[k]).connector,
    ) by {
        if k < base.len() {
            assert(once[k] == base[k]);
        }
    }
    lemma_all_survive(once, connectors);
    lemma_second_pass(crtcs, connectors, base, total);
}

/// After all connectors had their turn, giving the first `n` of them another
/// turn binds nothing.
proof fn lemma_second_pass(
    crtcs: Seq<u32>,
    connectors: Seq<ConnectorInfo>,
    base: Seq<Binding>,
    n: int,
)
    requires
        n <= connectors.len(),
    ensures
        bind_upto(
            crtcs,
            connectors,
            bind_upto(crtcs, connectors, base, connectors.len() as int),
            n,
        ) == bind_upto(crtcs, connectors, base, connectors.len() as int),
    decreases n,
{
    let total = connectors.len() as int;
    let once = bind_upto(crtcs, connectors, base, total);
    if n > 0 {
        lemma_second_pass(crtcs, connectors, base, n - 1);
        let connector = connectors[n - 1];
        if connector.usable() && !connector_bound(once, connector.handle) {
            let earlier = bind_upto(crtcs, connectors, base, n - 1);
            let later = bind_upto(crtcs, connectors, base, n);
            lemma_bind_upto_grows(crtcs, connectors, base, n - 1, total);
            lemma_bind_upto_grows(crtcs, connectors, base, n, total);
            if connector_bound(earlier, connector.handle) {
                let i = choose|i: int|
                    0 <= i < earlier.len() && (#[trigger] earlier[i]).connector
                        == connector.handle;
            }
            if picked(crtcs, connector.encoders@, earlier, 0) is Some {
                assert(later[later.len() - 1].connector == connector.handle);
            }
            assert forall|crtc: u32| crtc_claimed(earlier, crtc) implies crtc_claimed(
                once,
                crtc,
            ) by {
                let i = choose|i: int| 0 <= i < earlier.len() && (#[trigger] earlier[i]).crtc == crtc;
            }
            lemma_picked_none_grows(crtcs, connector.encoders@, earlier, once, 0);
        }
    }
}

} // verus!
