//! The capture context: a bounded window over the most recent samples,
//! and the rule by which a tick hands the window out for recognition.

use vstd::prelude::*;
use std::collections::VecDeque;
use crate::messages::{
    GUIMessage, GUIMessageView, MicrophoneMessage, MicrophoneMessageView, ProcessingMessage,
    ProcessingMessageView, option_text,
};

verus! {

/// The last `limit` elements of `samples`, or all of them where there are
/// no more than that.
pub open spec fn latest(samples: Seq<i16>, limit: nat) -> Seq<i16> {
    if samples.len() <= limit {
        samples
    } else {
        samples.subrange(samples.len() - limit, samples.len() as int)
    }
}

/// The most recent samples of a capture, up to a fixed number: when a sample
/// arrives at a full window, the oldest one leaves.
pub struct SampleWindow {
    limit: usize,
    samples: VecDeque<i16>,
}

impl View for SampleWindow {
    type V = Seq<i16>;

    /// The samples held, oldest first.
    closed spec fn view(&self) -> Seq<i16> {
        self.samples@
    }
}

impl SampleWindow {
    #[verifier::type_invariant]
    spec fn holds_no_more_than_limit(self) -> bool {
        self.samples@.len() <= self.limit
    }

    /// The number of samples that the window holds at most.
    pub closed spec fn limit(&self) -> nat {
        self.limit as nat
    }

    /// An empty window for `capacity` samples.
    pub fn new(capacity: usize) -> (window: Self)
        ensures
            window@ == Seq::<i16>::empty(),
            window.limit() == capacity,
    {
        SampleWindow { limit: capacity, samples: VecDeque::new() }
    }

    /// The number of samples that the window holds at most.
    pub fn capacity(&self) -> (capacity: usize)
        ensures
            capacity == self.limit(),
    {
        self.limit
    }

    /// The number of samples held.
    pub fn len(&self) -> (held: usize)
        ensures
            held == self@.len(),
            held <= self.limit(),
    {
        proof {
            use_type_invariant(self);
        }
        self.samples.len()
    }

    /// Takes one sample in; the oldest leaves if the window is full.
    pub fn push(&mut self, sample: i16)
        ensures
            final(self)@ == latest(old(self)@.push(sample), old(self).limit()),
            final(self).limit() == old(self).limit(),
    {
        proof {
            use_type_invariant(&*self);
        }
        if self.limit == 0 {
            assert(self@ =~= latest(old(self)@.push(sample), 0));
            return ;
        }
        let mut samples: VecDeque<i16> = VecDeque::new();
        std::mem::swap(&mut self.samples, &mut samples);
        if samples.len() == self.limit {
            let _ = samples.pop_front();
        }
        samples.push_back(sample);
        self.samples = samples;
        assert(self@ =~= latest(old(self)@.push(sample), old(self).limit()));
    }

    /// Takes `chunk` in, oldest sample first.
    pub fn push_samples(&mut self, chunk: &Vec<i16>)
        ensures
            final(self)@ == latest(old(self)@ + chunk@, old(self).limit()),
            final(self).limit() == old(self).limit(),
    {
        proof {
            use_type_invariant(&*self);
        }
        let mut i: usize = 0;
        assert(self@ =~= latest(old(self)@ + chunk@.take(0), old(self).limit()));
        while i < chunk.len()
            invariant
                i <= chunk.len(),
                self.limit() == old(self).limit(),
                old(self)@.len() <= old(self).limit(),
                self@ == latest(old(self)@ + chunk@.take(i as int), old(self).limit()),
            decreases chunk.len() - i,
        {
            let ghost before = self@;
            self.push(chunk[i]);
            proof {
                let arrived = old(self)@ + chunk@.take(i as int);
                assert(arrived.push(chunk@[i as int]) =~= old(self)@ + chunk@.take(i as int + 1));
                assert(latest(latest(arrived, self.limit()).push(chunk@[i as int]), self.limit())
                    =~= latest(arrived.push(chunk@[i as int]), self.limit()));
            }
            i += 1;
        }
        assert(chunk@.take(chunk.len() as int) =~= chunk@);
    }

    /// Drops every sample held.
    pub fn clear(&mut self)
        ensures
            final(self)@ == Seq::<i16>::empty(),
            final(self).limit() == old(self).limit(),
    {
        self.samples = VecDeque::new();
    }

    /// The samples held, oldest first.
    pub fn contents(&self) -> (samples: Vec<i16>)
        ensures
            samples@ == self@,
    {
        let mut samples: Vec<i16> = Vec::new();
        let mut i: usize = 0;
        while i < self.samples.len()
            invariant
                i <= self.samples.len(),
                samples@ == self.samples@.take(i as int),
            decreases self.samples.len() - i,
        {
            samples.push(self.samples[i]);
            assert(samples@ =~= self.samples@.take(i as int + 1));
            i += 1;
        }
        assert(self.samples@.take(self.samples.len() as int) =~= self.samples@);
        samples
    }
}

/// The number of samples in `buffer_secs` seconds of audio at
/// `sample_rate_hz` samples a second, where the machine can count that far.
pub fn window_capacity(buffer_secs: u64, sample_rate_hz: u32) -> (capacity: Option<usize>)
    ensures
        match capacity {
            Some(samples) => samples == buffer_secs * sample_rate_hz,
            None => buffer_secs * sample_rate_hz > usize::MAX,
        },
{
    assert(buffer_secs * sample_rate_hz <= 0xffff_ffff_ffff_ffff * 0xffff_ffff) by (nonlinear_arith)
        requires
            buffer_secs <= 0xffff_ffff_ffff_ffff,
            sample_rate_hz <= 0xffff_ffff,
    ;
    let samples: u128 = (buffer_secs as u128) * (sample_rate_hz as u128);
    if samples <= usize::MAX as u128 {
        Some(samples as usize)
    } else {
        None
    }
}

/// Where the capture context stands.
#[derive(Clone, Copy, Debug, PartialEq, Eq, Structural)]
pub enum CapturePhase {
    /// No device is bound.
    Idle,
    /// A device is bound and the next tick hands the window out.
    Recording,
    /// A device is bound and the window that was handed out last has not
    /// been reported done.
    Recognizing,
}

/// The capture context: the device it is bound to, the window of samples,
/// and whether a window that it handed out is still being dealt with.
pub struct Capture {
    window: SampleWindow,
    device: Option<String>,
    in_flight: bool,
}

/// Mathematical value of a [`Capture`].
pub struct CaptureView {
    pub samples: Seq<i16>,
    pub limit: nat,
    pub device: Option<Seq<char>>,
    pub in_flight: bool,
}

/// What the capture context is to do with its device.
#[derive(Clone, Debug)]
pub enum CaptureAction {
    /// Close the handle of the bound device.
    CloseDevice,
    /// Open a handle on the device with this identifier.
    OpenDevice(String),
    /// Send to the presentation surfaces.
    Present(GUIMessage),
}

/// Mathematical value of a [`CaptureAction`].
pub enum CaptureActionView {
    CloseDevice,
    OpenDevice(Seq<char>),
    Present(GUIMessageView),
}

impl View for CaptureAction {
    type V = CaptureActionView;

    open spec fn view(&self) -> CaptureActionView {
        match self {
            CaptureAction::CloseDevice => CaptureActionView::CloseDevice,
            CaptureAction::OpenDevice(device) => CaptureActionView::OpenDevice(device@),
            CaptureAction::Present(message) => CaptureActionView::Present(message@),
        }
    }
}

/// Values of a sequence of capture actions, in the same order.
pub open spec fn capture_action_views(actions: Seq<CaptureAction>) -> Seq<CaptureActionView> {
    actions.map_values(|action: CaptureAction| action@)
}

/// What happens to the capture context.
pub enum CaptureEvent {
    /// A command arrived.
    Control(MicrophoneMessageView),
    /// The device delivered samples.
    Samples(Seq<i16>),
    /// The request interval has passed.
    Tick,
}

impl CaptureView {
    /// The context before anything happened, with a window for `limit`
    /// samples.
    pub open spec fn initial(limit: nat) -> CaptureView {
        CaptureView { samples: Seq::empty(), limit, device: None, in_flight: false }
    }

    /// Where the context stands.
    pub open spec fn phase(self) -> CapturePhase {
        if self.device is None {
            CapturePhase::Idle
        } else if self.in_flight {
            CapturePhase::Recognizing
        } else {
            CapturePhase::Recording
        }
    }

    /// What is done with the device when `message` arrives: to start on a
    /// device closes the one that is bound, opens the new one and tells the
    /// presentation surfaces; to stop closes the one that is bound.
    pub open spec fn control_actions(self, message: MicrophoneMessageView) -> Seq<
        CaptureActionView,
    > {
        let closing = if self.device is Some {
            seq![CaptureActionView::CloseDevice]
        } else {
            Seq::<CaptureActionView>::empty()
        };
        match message {
            MicrophoneMessageView::MicrophoneRecordStart(device) => closing.push(
                CaptureActionView::OpenDevice(device),
            ).push(CaptureActionView::Present(GUIMessageView::MicrophoneRecording)),
            MicrophoneMessageView::MicrophoneRecordStop => closing,
            MicrophoneMessageView::ProcessingDone => Seq::empty(),
        }
    }

    /// The context after `message`. To start or stop drops the samples held:
    /// none from before a switch is used after it. That a window is dealt
    /// with is forgotten only when it is reported done.
    pub open spec fn on_control(self, message: MicrophoneMessageView) -> CaptureView {
        match message {
            MicrophoneMessageView::MicrophoneRecordStart(device) => CaptureView {
                samples: Seq::empty(),
                device: Some(device),
                ..self
            },
            MicrophoneMessageView::MicrophoneRecordStop => CaptureView {
                samples: Seq::empty(),
                device: None,
                ..self
            },
            MicrophoneMessageView::ProcessingDone => CaptureView { in_flight: false, ..self },
        }
    }

    /// The context after the device delivered `chunk`: with a device bound
    /// the window takes the samples in, without one they are dropped.
    pub open spec fn on_samples(self, chunk: Seq<i16>) -> CaptureView {
        if self.device is Some {
            CaptureView { samples: latest(self.samples + chunk, self.limit), ..self }
        } else {
            self
        }
    }

    /// A tick hands the window out: a device is bound and no window is
    /// being dealt with.
    pub open spec fn tick_issues(self) -> bool {
        self.device is Some && !self.in_flight
    }

    /// What a tick hands to the fingerprinting context.
    pub open spec fn tick_request(self) -> Option<ProcessingMessageView> {
        if self.tick_issues() {
            Some(ProcessingMessageView::ProcessAudioSamples(self.samples))
        } else {
            None
        }
    }

    /// The context after a tick.
    pub open spec fn on_tick(self) -> CaptureView {
        if self.tick_issues() {
            CaptureView { in_flight: true, ..self }
        } else {
            self
        }
    }

    /// The context after `event`.
    pub open spec fn after(self, event: CaptureEvent) -> CaptureView {
        match event {
            CaptureEvent::Control(message) => self.on_control(message),
            CaptureEvent::Samples(chunk) => self.on_samples(chunk),
            CaptureEvent::Tick => self.on_tick(),
        }
    }

    /// The context after `events`, in order.
    pub open spec fn after_all(self, events: Seq<CaptureEvent>) -> CaptureView
        decreases events.len(),
    {
        if events.len() == 0 {
            self
        } else {
            self.after_all(events.drop_last()).after(events.last())
        }
    }

    /// The number of windows that were handed out and are not reported done
    /// after `events`, counted from the events: each tick that hands a
    /// window out adds one, each report takes one away.
    pub open spec fn outstanding(self, events: Seq<CaptureEvent>) -> int
        decreases events.len(),
    {
        if events.len() == 0 {
            if self.in_flight {
                1
            } else {
                0
            }
        } else {
            let earlier = self.outstanding(events.drop_last());
            match events.last() {
                CaptureEvent::Tick => if self.after_all(events.drop_last()).tick_issues() {
                    earlier + 1
                } else {
                    earlier
                },
                CaptureEvent::Control(MicrophoneMessageView::ProcessingDone) => if earlier > 0 {
                    earlier - 1
                } else {
                    0
                },
                _ => earlier,
            }
        }
    }
}

impl View for Capture {
    type V = CaptureView;

    closed spec fn view(&self) -> CaptureView {
        CaptureView {
            samples: self.window@,
            limit: self.window.limit(),
            device: option_text(self.device),
            in_flight: self.in_flight,
        }
    }
}

impl Capture {
    /// A capture context with a window for `capacity` samples, bound to no
    /// device.
    pub fn new(capacity: usize) -> (capture: Self)
        ensures
            capture@ == CaptureView::initial(capacity as nat),
    {
        Capture { window: SampleWindow::new(capacity), device: None, in_flight: false }
    }

    /// Where the context stands.
    pub fn phase(&self) -> (phase: CapturePhase)
        ensures
            phase == self@.phase(),
    {
        if self.device.is_none() {
            CapturePhase::Idle
        } else if self.in_flight {
            CapturePhase::Recognizing
        } else {
            CapturePhase::Recording
        }
    }

    /// The samples held, oldest first.
    pub fn samples(&self) -> (samples: Vec<i16>)
        ensures
            samples@ == self@.samples,
    {
        self.window.contents()
    }

    /// Takes a command and says what is to be done with the device.
    pub fn handle_control(&mut self, message: MicrophoneMessage) -> (actions: Vec<CaptureAction>)
        ensures
            final(self)@ == old(self)@.on_control(message@),
            capture_action_views(actions@) == old(self)@.control_actions(message@),
    {
        let mut actions: Vec<CaptureAction> = Vec::new();
        match message {
            MicrophoneMessage::MicrophoneRecordStart(device) => {
                if self.device.is_some() {
                    actions.push(CaptureAction::CloseDevice);
                }
                actions.push(CaptureAction::OpenDevice(device.clone()));
                actions.push(CaptureAction::Present(GUIMessage::MicrophoneRecording));
                self.device = Some(device);
                self.window.clear();
            },
            MicrophoneMessage::MicrophoneRecordStop => {
                if self.device.is_some() {
                    actions.push(CaptureAction::CloseDevice);
                }
                self.device = None;
                self.window.clear();
            },
            MicrophoneMessage::ProcessingDone => {
                self.in_flight = false;
            },
        }
        assert(capture_action_views(actions@) =~= old(self)@.control_actions(message@));
        actions
    }

    /// Takes in the samples that the device delivered.
    pub fn take_samples(&mut self, chunk: &Vec<i16>)
        ensures
            final(self)@ == old(self)@.on_samples(chunk@),
    {
        if self.device.is_some() {
            self.window.push_samples(chunk);
        }
    }

    /// The request interval has passed: hands the window out for
    /// recognition, unless no device is bound or the window handed out last
    /// is still being dealt with.
    pub fn tick(&mut self) -> (request: Option<ProcessingMessage>)
        ensures
            final(self)@ == old(self)@.on_tick(),
            match old(self)@.tick_request() {
                Some(wanted) => request matches Some(handed) && handed@ == wanted,
                None => request is None,
            },
    {
        if self.device.is_some() && !self.in_flight {
            self.in_flight = true;
            Some(ProcessingMessage::ProcessAudioSamples(self.window.contents()))
        } else {
            None
        }
    }
}

/// At no time are two windows out: however commands, samples and ticks
/// follow each other, the number of windows handed out and not reported
/// done is 0 or 1, and it is 1 exactly while the context waits for a report.
pub proof fn lemma_one_window_at_a_time(start: CaptureView, events: Seq<CaptureEvent>)
    ensures
        start.outstanding(events) == if start.after_all(events).in_flight {
            1int
        } else {
            0int
        },
        0 <= start.outstanding(events) <= 1,
    decreases events.len(),
{
    if events.len() > 0 {
        lemma_one_window_at_a_time(start, events.drop_last());
    }
}

/// While a window is out, a tick hands out nothing; once it is reported
/// done, the next tick of a bound context hands the window out again.
pub proof fn lemma_ticks_wait_for_the_report(state: CaptureView)
    ensures
        state.in_flight ==> state.tick_request() is None && state.on_tick() == state,
        state.device is Some ==> state.on_control(
            MicrophoneMessageView::ProcessingDone,
        ).tick_request() is Some,
{
}

/// The samples that the device delivered since a device was last bound or
/// released, in the order of their arrival; samples that arrive while no
/// device is bound do not count.
pub open spec fn arrived_since_switch(start: CaptureView, events: Seq<CaptureEvent>) -> Seq<i16>
    decreases events.len(),
{
    if events.len() == 0 {
        start.samples
    } else {
        let earlier = arrived_since_switch(start, events.drop_last());
        match events.last() {
            CaptureEvent::Control(MicrophoneMessageView::MicrophoneRecordStart(_)) => Seq::empty(),
            CaptureEvent::Control(MicrophoneMessageView::MicrophoneRecordStop) => Seq::empty(),
            CaptureEvent::Samples(chunk) => if start.after_all(events.drop_last()).device
                is Some {
                earlier + chunk
            } else {
                earlier
            },
            _ => earlier,
        }
    }
}

proof fn lemma_latest_of_latest(samples: Seq<i16>, chunk: Seq<i16>, limit: nat)
    ensures
        latest(latest(samples, limit) + chunk, limit) == latest(samples + chunk, limit),
{
    assert(latest(latest(samples, limit) + chunk, limit) =~= latest(samples + chunk, limit));
}

/// The window goes by the time of arrival alone: it holds the latest of the
/// samples that arrived since the device was bound, as many as it has room
/// for, whatever was handed out in between. No sample from before a switch
/// of devices is among them.
pub proof fn lemma_window_holds_the_latest(start: CaptureView, events: Seq<CaptureEvent>)
    requires
        start.samples.len() <= start.limit,
    ensures
        start.after_all(events).limit == start.limit,
        start.after_all(events).samples == latest(
            arrived_since_switch(start, events),
            start.limit,
        ),
    decreases events.len(),
{
    if events.len() > 0 {
        let earlier = events.drop_last();
        lemma_window_holds_the_latest(start, earlier);
        match events.last() {
            CaptureEvent::Samples(chunk) => {
                lemma_latest_of_latest(arrived_since_switch(start, earlier), chunk, start.limit);
            },
            _ => {},
        }
    }
}

} // verus!
