//! Present modes and the set of present modes that a surface supports.

use vstd::prelude::*;

use crate::raw::PRESENT_MODE_FIFO_KHR;
use crate::raw::PRESENT_MODE_FIFO_RELAXED_KHR;
use crate::raw::PRESENT_MODE_IMMEDIATE_KHR;
use crate::raw::PRESENT_MODE_MAILBOX_KHR;

verus! {

broadcast use vstd::seq_lib::group_seq_properties;

/// The way presenting a swapchain is accomplished.
#[derive(Copy, Clone, Debug, PartialEq, Eq, Structural)]
pub enum PresentMode {
    /// Immediately shows the image to the user. May result in visible tearing.
    Immediate,
    /// The action of presenting an image puts it in wait. When the next vertical blanking period
    /// happens, the waiting image is effectively shown to the user. If an image is presented while
    /// another one is waiting, it is replaced.
    Mailbox,
    /// The action of presenting an image adds it to a queue of images. At each vertical blanking
    /// period, the queue is poped and an image is presented.
    ///
    /// Guaranteed to be always supported.
    ///
    /// This is the equivalent of OpenGL's `SwapInterval` with a value of 1.
    Fifo,
    /// Same as `Fifo`, except that if the queue was empty during the previous vertical blanking
    /// period then it is equivalent to `Immediate`.
    ///
    /// This is the equivalent of OpenGL's `SwapInterval` with a value of -1.
    Relaxed,
}

impl PresentMode {
    /// The Vulkan number of this present mode.
    pub open spec fn raw_value(self) -> u32 {
        match self {
            PresentMode::Immediate => PRESENT_MODE_IMMEDIATE_KHR,
            PresentMode::Mailbox => PRESENT_MODE_MAILBOX_KHR,
            PresentMode::Fifo => PRESENT_MODE_FIFO_KHR,
            PresentMode::Relaxed => PRESENT_MODE_FIFO_RELAXED_KHR,
        }
    }

    /// The present mode whose Vulkan number is `raw`, if there is one.
    pub open spec fn from_raw_value(raw: u32) -> Option<PresentMode> {
        if raw == PRESENT_MODE_IMMEDIATE_KHR {
            Some(PresentMode::Immediate)
        } else if raw == PRESENT_MODE_MAILBOX_KHR {
            Some(PresentMode::Mailbox)
        } else if raw == PRESENT_MODE_FIFO_KHR {
            Some(PresentMode::Fifo)
        } else if raw == PRESENT_MODE_FIFO_RELAXED_KHR {
            Some(PresentMode::Relaxed)
        } else {
            None
        }
    }

    /// Returns the Vulkan number of this present mode.
    pub fn to_raw(self) -> (r: u32)
        ensures
            r == self.raw_value(),
            self == PresentMode::Immediate ==> r == PRESENT_MODE_IMMEDIATE_KHR,
            self == PresentMode::Mailbox ==> r == PRESENT_MODE_MAILBOX_KHR,
            self == PresentMode::Fifo ==> r == PRESENT_MODE_FIFO_KHR,
            self == PresentMode::Relaxed ==> r == PRESENT_MODE_FIFO_RELAXED_KHR,
    {
        match self {
            PresentMode::Immediate => PRESENT_MODE_IMMEDIATE_KHR,
            PresentMode::Mailbox => PRESENT_MODE_MAILBOX_KHR,
            PresentMode::Fifo => PRESENT_MODE_FIFO_KHR,
            PresentMode::Relaxed => PRESENT_MODE_FIFO_RELAXED_KHR,
        }
    }

    /// Returns the present mode whose Vulkan number is `raw`, or `None` for an unknown number.
    pub fn from_raw(raw: u32) -> (r: Option<PresentMode>)
        ensures
            r == Self::from_raw_value(raw),
            (r == Some(PresentMode::Immediate)) <==> raw == PRESENT_MODE_IMMEDIATE_KHR,
            (r == Some(PresentMode::Mailbox)) <==> raw == PRESENT_MODE_MAILBOX_KHR,
            (r == Some(PresentMode::Fifo)) <==> raw == PRESENT_MODE_FIFO_KHR,
            (r == Some(PresentMode::Relaxed)) <==> raw == PRESENT_MODE_FIFO_RELAXED_KHR,
    {
        if raw == PRESENT_MODE_IMMEDIATE_KHR {
            Some(PresentMode::Immediate)
        } else if raw == PRESENT_MODE_MAILBOX_KHR {
            Some(PresentMode::Mailbox)
        } else if raw == PRESENT_MODE_FIFO_KHR {
            Some(PresentMode::Fifo)
        } else if raw == PRESENT_MODE_FIFO_RELAXED_KHR {
            Some(PresentMode::Relaxed)
        } else {
            None
        }
    }
}

/// List of `PresentMode`s that are supported.
#[derive(Copy, Clone, Debug, PartialEq, Eq, Structural)]
pub struct SupportedPresentModes {
    pub immediate: bool,
    pub mailbox: bool,
    pub fifo: bool,
    pub relaxed: bool,
}

/// `seq![m]` when `present`, the empty sequence otherwise.
pub open spec fn mode_if(present: bool, m: PresentMode) -> Seq<PresentMode> {
    if present {
        seq![m]
    } else {
        Seq::empty()
    }
}

/// The set of present modes that a list of Vulkan present-mode numbers names.
pub open spec fn modes_from_raw_list(list: Seq<u32>) -> SupportedPresentModes {
    SupportedPresentModes {
        immediate: list.contains(PRESENT_MODE_IMMEDIATE_KHR),
        mailbox: list.contains(PRESENT_MODE_MAILBOX_KHR),
        fifo: list.contains(PRESENT_MODE_FIFO_KHR),
        relaxed: list.contains(PRESENT_MODE_FIFO_RELAXED_KHR),
    }
}

impl SupportedPresentModes {
    /// Whether `mode` is in this list.
    pub open spec fn has(self, mode: PresentMode) -> bool {
        match mode {
            PresentMode::Immediate => self.immediate,
            PresentMode::Mailbox => self.mailbox,
            PresentMode::Fifo => self.fifo,
            PresentMode::Relaxed => self.relaxed,
        }
    }

    /// The supported modes in the order in which they are enumerated:
    /// `Immediate`, `Mailbox`, `Fifo`, `Relaxed`.
    pub open spec fn listed(self) -> Seq<PresentMode> {
        mode_if(self.immediate, PresentMode::Immediate) + mode_if(self.mailbox, PresentMode::Mailbox)
            + mode_if(self.fifo, PresentMode::Fifo) + mode_if(self.relaxed, PresentMode::Relaxed)
    }

    /// Builds a `SupportedPresentModes` with all fields set to false.
    pub fn none() -> (r: SupportedPresentModes)
        ensures
            !r.immediate,
            !r.mailbox,
            !r.fifo,
            !r.relaxed,
    {
        SupportedPresentModes { immediate: false, mailbox: false, fifo: false, relaxed: false }
    }

    /// Builds the list of supported modes from the Vulkan present-mode numbers that a driver
    /// reported. Every number must name a present mode.
    pub fn from_list(elem: &[u32]) -> (r: SupportedPresentModes)
        requires
            forall|i: int| 0 <= i < elem@.len() ==> (#[trigger] PresentMode::from_raw_value(elem@[i])) is Some,
        ensures
            r == modes_from_raw_list(elem@),
            r.immediate <==> elem@.contains(PRESENT_MODE_IMMEDIATE_KHR),
            r.mailbox <==> elem@.contains(PRESENT_MODE_MAILBOX_KHR),
            r.fifo <==> elem@.contains(PRESENT_MODE_FIFO_KHR),
            r.relaxed <==> elem@.contains(PRESENT_MODE_FIFO_RELAXED_KHR),
    {
        let mut result = SupportedPresentModes::none();
        let mut i: usize = 0;
        while i < elem.len()
            invariant
                0 <= i <= elem@.len(),
                forall|j: int| 0 <= j < elem@.len() ==> (#[trigger] PresentMode::from_raw_value(elem@[j])) is Some,
                result == modes_from_raw_list(elem@.take(i as int)),
            decreases elem@.len() - i,
        {
            let e = elem[i];
            assert(PresentMode::from_raw_value(elem@[i as int]) is Some);
            if e == PRESENT_MODE_IMMEDIATE_KHR {
                result.immediate = true;
            } else if e == PRESENT_MODE_MAILBOX_KHR {
                result.mailbox = true;
            } else if e == PRESENT_MODE_FIFO_KHR {
                result.fifo = true;
            } else {
                result.relaxed = true;
            }
            assert(elem@.take(i + 1) =~= elem@.take(i as int).push(e));
            i = i + 1;
        }
        assert(elem@.take(elem@.len() as int) =~= elem@);
        result
    }

    /// Returns true if the given present mode is in this list of supported modes.
    pub fn supports(&self, mode: PresentMode) -> (r: bool)
        ensures
            r == self.has(mode),
            mode == PresentMode::Immediate ==> r == self.immediate,
            mode == PresentMode::Mailbox ==> r == self.mailbox,
            mode == PresentMode::Fifo ==> r == self.fifo,
            mode == PresentMode::Relaxed ==> r == self.relaxed,
    {
        match mode {
            PresentMode::Immediate => self.immediate,
            PresentMode::Mailbox => self.mailbox,
            PresentMode::Fifo => self.fifo,
            PresentMode::Relaxed => self.relaxed,
        }
    }

    /// Returns an iterator to the list of supported present modes.
    pub fn iter(&self) -> (r: SupportedPresentModesIter)
        ensures
            r@ == self.listed(),
    {
        SupportedPresentModesIter(*self)
    }
}

/// Enumeration of the `PresentMode`s that are supported.
#[derive(Copy, Clone, Debug, PartialEq, Eq, Structural)]
pub struct SupportedPresentModesIter(SupportedPresentModes);

impl View for SupportedPresentModesIter {
    type V = Seq<PresentMode>;

    /// The modes that are still to come, in order.
    closed spec fn view(&self) -> Seq<PresentMode> {
        self.0.listed()
    }
}

impl SupportedPresentModesIter {
    /// Returns the next supported present mode, or `None` once all have been returned.
    pub fn next(&mut self) -> (r: Option<PresentMode>)
        ensures
            old(self)@.len() == 0 ==> r is None && final(self)@ == old(self)@,
            old(self)@.len() > 0 ==> r == Some(old(self)@[0]) && final(self)@ == old(self)@.drop_first(),
    {
        if self.0.immediate {
            self.0.immediate = false;
            return Some(PresentMode::Immediate);
        }
        if self.0.mailbox {
            self.0.mailbox = false;
            return Some(PresentMode::Mailbox);
        }
        if self.0.fifo {
            self.0.fifo = false;
            return Some(PresentMode::Fifo);
        }
        if self.0.relaxed {
            self.0.relaxed = false;
            return Some(PresentMode::Relaxed);
        }
        None
    }

    /// Returns all the modes that are still to come, in order, and exhausts the iterator.
    pub fn collect_remaining(&mut self) -> (r: Vec<PresentMode>)
        ensures
            r@ == old(self)@,
            final(self)@.len() == 0,
    {
        let ghost start = self@;
        let mut out: Vec<PresentMode> = Vec::new();
        loop
            invariant
                start == out@ + self@,
                out@.len() <= 4,
                self@.len() <= 4 - out@.len(),
            ensures
                start == out@,
                self@.len() == 0,
            decreases self@.len(),
        {
            let ghost before = self@;
            match self.next() {
                Some(m) => {
                    out.push(m);
                    assert(before =~= seq![m] + self@);
                },
                None => {
                    assert(start =~= out@);
                    break;
                },
            }
        }
        out
    }
}

/// A present mode's number names that mode again, and no other number names it.
pub proof fn lemma_present_mode_raw_roundtrip(m: PresentMode, raw: u32)
    ensures
        PresentMode::from_raw_value(m.raw_value()) == Some(m),
        PresentMode::from_raw_value(raw) == Some(m) ==> raw == m.raw_value(),
{
}

/// A list of supported modes enumerates exactly the modes that it supports.
pub proof fn lemma_listed_iff_supported(s: SupportedPresentModes, m: PresentMode)
    ensures
        s.has(m) <==> s.listed().contains(m),
{
    let l = s.listed();
    if s.has(m) {
        match m {
            PresentMode::Immediate => assert(l[0] == m),
            PresentMode::Mailbox => {
                let k = if s.immediate { 1int } else { 0int };
                assert(l[k] == m);
            },
            PresentMode::Fifo => {
                let k = (if s.immediate { 1int } else { 0int }) + (if s.mailbox { 1int } else { 0int });
                assert(l[k] == m);
            },
            PresentMode::Relaxed => {
                let k = (if s.immediate { 1int } else { 0int }) + (if s.mailbox { 1int } else { 0int })
                    + (if s.fifo { 1int } else { 0int });
                assert(l[k] == m);
            },
        }
    }
}

/// A list of supported modes enumerates each mode at most once.
pub proof fn lemma_listed_no_duplicates(s: SupportedPresentModes)
    ensures
        s.listed().no_duplicates(),
{
}

/// A list built from Vulkan numbers supports a mode exactly when the mode's number is listed.
pub proof fn lemma_from_list_supports(list: Seq<u32>, m: PresentMode)
    ensures
        modes_from_raw_list(list).has(m) <==> list.contains(m.raw_value()),
{
}

/// Building a list from the numbers of the modes that a list enumerates gives that list back.
pub proof fn lemma_from_list_of_listed(s: SupportedPresentModes)
    ensures
        modes_from_raw_list(s.listed().map_values(|m: PresentMode| m.raw_value())) == s,
{
    let raws = s.listed().map_values(|m: PresentMode| m.raw_value());
    assert forall|m: PresentMode| s.has(m) == raws.contains(#[trigger] m.raw_value()) by {
        lemma_listed_iff_supported(s, m);
        if s.has(m) {
            let k = choose|k: int| 0 <= k < s.listed().len() && s.listed()[k] == m;
            assert(raws[k] == m.raw_value());
        }
        if raws.contains(m.raw_value()) {
            let k = choose|k: int| 0 <= k < raws.len() && raws[k] == m.raw_value();
            assert(s.listed()[k].raw_value() == m.raw_value());
            assert(s.listed().contains(s.listed()[k]));
            lemma_listed_iff_supported(s, s.listed()[k]);
        }
    }
    assert(s.has(PresentMode::Immediate) == raws.contains(PresentMode::Immediate.raw_value()));
    assert(s.has(PresentMode::Mailbox) == raws.contains(PresentMode::Mailbox.raw_value()));
    assert(s.has(PresentMode::Fifo) == raws.contains(PresentMode::Fifo.raw_value()));
    assert(s.has(PresentMode::Relaxed) == raws.contains(PresentMode::Relaxed.raw_value()));
}

/// The empty list supports no mode and enumerates nothing.
pub proof fn lemma_none_is_empty(m: PresentMode)
    ensures
        !(SupportedPresentModes { immediate: false, mailbox: false, fifo: false, relaxed: false }).has(m),
        (SupportedPresentModes { immediate: false, mailbox: false, fifo: false, relaxed: false }).listed().len() == 0,
{
}

/// Each present mode is named by its own Vulkan number, and a list built from numbers supports
/// a mode exactly when that number is among them.
pub proof fn lemma_present_mode_constants(list: Seq<u32>)
    ensures
        PresentMode::from_raw_value(PRESENT_MODE_IMMEDIATE_KHR) == Some(PresentMode::Immediate),
        PresentMode::from_raw_value(PRESENT_MODE_MAILBOX_KHR) == Some(PresentMode::Mailbox),
        PresentMode::from_raw_value(PRESENT_MODE_FIFO_KHR) == Some(PresentMode::Fifo),
        PresentMode::from_raw_value(PRESENT_MODE_FIFO_RELAXED_KHR) == Some(PresentMode::Relaxed),
        modes_from_raw_list(list).has(PresentMode::Immediate) <==> list.contains(PRESENT_MODE_IMMEDIATE_KHR),
        modes_from_raw_list(list).has(PresentMode::Mailbox) <==> list.contains(PRESENT_MODE_MAILBOX_KHR),
        modes_from_raw_list(list).has(PresentMode::Fifo) <==> list.contains(PRESENT_MODE_FIFO_KHR),
        modes_from_raw_list(list).has(PresentMode::Relaxed) <==> list.contains(PRESENT_MODE_FIFO_RELAXED_KHR),
{
}

} // verus!
