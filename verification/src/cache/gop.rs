//! Groups of pictures and the bounded window of them that a stream keeps for
//! late joiners.

use std::collections::VecDeque;
use vstd::prelude::*;

use crate::channels::define::{frames_view, ChannelData, MediaFrame};

verus! {

/// A group of pictures: frames in arrival order.
pub struct Gop {
    datas: Vec<ChannelData>,
}

impl View for Gop {
    type V = Seq<MediaFrame>;

    closed spec fn view(&self) -> Seq<MediaFrame> {
        frames_view(self.datas@)
    }
}

impl Default for Gop {
    fn default() -> (gop: Self)
        ensures
            gop@ == Seq::<MediaFrame>::empty(),
    {
        Self::new()
    }
}

impl Gop {
    pub fn new() -> (gop: Self)
        ensures
            gop@ == Seq::<MediaFrame>::empty(),
    {
        Self { datas: Vec::new() }
    }

    pub(crate) fn save_frame_data(&mut self, data: ChannelData)
        ensures
            final(self)@ == old(self)@.push(data@),
    {
        self.datas.push(data);
    }

    pub fn get_frame_data(self) -> (frames: Vec<ChannelData>)
        ensures
            frames_view(frames@) == self@,
    {
        self.datas
    }

    pub fn len(&self) -> (n: usize)
        ensures
            n == self@.len(),
    {
        self.datas.len()
    }

    pub fn is_empty(&self) -> (empty: bool)
        ensures
            empty <==> self@.len() == 0,
    {
        self.len() == 0
    }

    /// A copy of this group, each frame in a buffer of its own.
    pub fn duplicate(&self) -> (copy: Self)
        ensures
            copy@ == self@,
    {
        let mut datas: Vec<ChannelData> = Vec::new();
        let mut i: usize = 0;
        while i < self.datas.len()
            invariant
                i <= self.datas.len(),
                datas@.len() == i,
                forall|j: int| 0 <= j < i ==> (#[trigger] datas@[j])@ == self.datas@[j]@,
            decreases self.datas.len() - i,
        {
            let frame = self.datas[i].clone();
            datas.push(frame);
            i = i + 1;
        }
        assert(frames_view(datas@) =~= frames_view(self.datas@));
        Self { datas }
    }
}

/// The window of groups as a mathematical value: the groups oldest first,
/// each a sequence of frames, and the configured capacity.
pub ghost struct GopWindow {
    pub gops: Seq<Seq<MediaFrame>>,
    pub size: nat,
}

impl GopWindow {
    /// A window always holds a current group, the last one.
    pub open spec fn wf(self) -> bool {
        self.gops.len() >= 1
    }

    /// The window that a stream starts with: one group, still empty.
    pub open spec fn fresh(size: nat) -> GopWindow {
        GopWindow { gops: seq![Seq::<MediaFrame>::empty()], size }
    }

    /// Whether a frame with this flag pushes the oldest group out.
    pub open spec fn evicts(self, is_key_frame: bool) -> bool {
        self.size != 0 && is_key_frame && self.gops.len() >= self.size
    }

    /// The window after one frame has been saved.
    ///
    /// With capacity zero nothing is kept. Otherwise a key frame that finds
    /// the window at capacity drops the oldest group and opens an empty one;
    /// then the frame joins the last group.
    pub open spec fn save(self, frame: MediaFrame, is_key_frame: bool) -> GopWindow
        recommends
            self.wf(),
    {
        if self.size == 0 {
            self
        } else {
            let gops = if self.evicts(is_key_frame) {
                self.gops.drop_first().push(Seq::<MediaFrame>::empty())
            } else {
                self.gops
            };
            GopWindow { gops: gops.drop_last().push(gops.last().push(frame)), size: self.size }
        }
    }

    /// Whether caching is switched on.
    pub open spec fn setted(self) -> bool {
        self.size != 0
    }

    /// Every frame of every group, oldest group first.
    pub open spec fn frames(self) -> Seq<MediaFrame> {
        concat_gops(self.gops)
    }
}

/// The frames of a run of groups, one group after the other.
pub open spec fn concat_gops(gops: Seq<Seq<MediaFrame>>) -> Seq<MediaFrame>
    decreases gops.len(),
{
    if gops.len() == 0 {
        Seq::<MediaFrame>::empty()
    } else {
        concat_gops(gops.drop_last()) + gops.last()
    }
}

/// The window after a run of frames has been saved, each with its key-frame
/// flag, first to last.
pub open spec fn save_all(window: GopWindow, pushes: Seq<(MediaFrame, bool)>) -> GopWindow
    decreases pushes.len(),
{
    if pushes.len() == 0 {
        window
    } else {
        save_all(window, pushes.drop_last()).save(pushes.last().0, pushes.last().1)
    }
}

/// Saving a frame keeps the number of groups and the capacity of a window
/// that has a current group.
pub proof fn lemma_save_keeps_shape(window: GopWindow, frame: MediaFrame, is_key_frame: bool)
    requires
        window.wf(),
    ensures
        window.save(frame, is_key_frame).wf(),
        window.save(frame, is_key_frame).gops.len() == window.gops.len(),
        window.save(frame, is_key_frame).size == window.size,
{
}

/// A window never holds more groups than its capacity, whatever frames are
/// saved into it and however they are flagged: a window that is within its
/// capacity stays so, and a new window of capacity one or more is within it.
pub proof fn law_window_within_capacity(window: GopWindow, pushes: Seq<(MediaFrame, bool)>)
    requires
        window.wf(),
        window.gops.len() <= window.size,
    ensures
        save_all(window, pushes).wf(),
        save_all(window, pushes).gops.len() <= window.size,
        save_all(window, pushes).size == window.size,
        window.size >= 1 ==> GopWindow::fresh(window.size).wf() && GopWindow::fresh(
            window.size,
        ).gops.len() <= window.size,
    decreases pushes.len(),
{
    if pushes.len() > 0 {
        law_window_within_capacity(window, pushes.drop_last());
        lemma_save_keeps_shape(
            save_all(window, pushes.drop_last()),
            pushes.last().0,
            pushes.last().1,
        );
    }
}

/// From its first frame on a window holds exactly one group, the current one.
pub proof fn law_window_shape(size: nat, pushes: Seq<(MediaFrame, bool)>)
    ensures
        save_all(GopWindow::fresh(size), pushes).gops.len() == 1,
        save_all(GopWindow::fresh(size), pushes).size == size,
    decreases pushes.len(),
{
    if pushes.len() > 0 {
        law_window_shape(size, pushes.drop_last());
        lemma_save_keeps_shape(
            save_all(GopWindow::fresh(size), pushes.drop_last()),
            pushes.last().0,
            pushes.last().1,
        );
    }
}

/// A group leaves the window only when a key frame arrives while the window
/// is at capacity. Then the oldest group goes and the key frame opens a new
/// one. Any other frame joins the current group, and every frame that was
/// cached stays cached.
pub proof fn law_eviction_only_by_key_frame_at_capacity(
    window: GopWindow,
    frame: MediaFrame,
    is_key_frame: bool,
)
    requires
        window.wf(),
        window.size >= 1,
    ensures
        window.evicts(is_key_frame) <==> is_key_frame && window.gops.len() >= window.size,
        window.evicts(is_key_frame) ==> window.save(frame, is_key_frame).gops
            == window.gops.drop_first().push(seq![frame]),
        !window.evicts(is_key_frame) ==> window.save(frame, is_key_frame).gops
            == window.gops.drop_last().push(window.gops.last().push(frame)),
        !window.evicts(is_key_frame) ==> window.save(frame, is_key_frame).frames()
            == window.frames().push(frame),
{
    let saved = window.save(frame, is_key_frame);
    if window.evicts(is_key_frame) {
        let opened = window.gops.drop_first().push(Seq::<MediaFrame>::empty());
        assert(opened.last().push(frame) =~= seq![frame]);
        assert(saved.gops =~= window.gops.drop_first().push(seq![frame]));
    } else {
        assert(saved.gops =~= window.gops.drop_last().push(window.gops.last().push(frame)));
        assert(saved.gops.drop_last() =~= window.gops.drop_last());
        assert(concat_gops(window.gops.drop_last()) + window.gops.last().push(frame) =~= (
        concat_gops(window.gops.drop_last()) + window.gops.last()).push(frame));
    }
}

/// A window of capacity zero keeps nothing, whatever frames are saved into it.
pub proof fn law_no_capacity_keeps_nothing(window: GopWindow, pushes: Seq<(MediaFrame, bool)>)
    requires
        window.size == 0,
    ensures
        save_all(window, pushes) == window,
    decreases pushes.len(),
{
    if pushes.len() > 0 {
        law_no_capacity_keeps_nothing(window, pushes.drop_last());
    }
}

/// The groups that a run of `Gop` values stands for.
pub open spec fn gops_view(gops: Seq<Gop>) -> Seq<Seq<MediaFrame>> {
    Seq::new(gops.len(), |i: int| gops[i]@)
}

/// The sliding window of groups of pictures kept for one stream: the groups
/// that are complete, oldest first, and behind them the current group, which
/// takes the frames that come in.
pub struct Gops {
    gops: VecDeque<Gop>,
    current: Gop,
    size: usize,
}

impl View for Gops {
    type V = GopWindow;

    closed spec fn view(&self) -> GopWindow {
        GopWindow { gops: gops_view(self.gops@).push(self.current@), size: self.size as nat }
    }
}

impl Default for Gops {
    fn default() -> (gops: Self)
        ensures
            gops@ == GopWindow::fresh(1),
    {
        Self::new(1)
    }
}

impl Gops {
    pub fn new(size: usize) -> (gops: Self)
        ensures
            gops@ == GopWindow::fresh(size as nat),
    {
        let window = Self { gops: VecDeque::new(), current: Gop::new(), size };
        assert(window@.gops =~= GopWindow::fresh(size as nat).gops);
        window
    }

    /// Every window has a current group, the last one.
    pub proof fn law_has_current_group(&self)
        ensures
            self@.wf(),
    {
    }

    pub fn save_frame_data(&mut self, data: ChannelData, is_key_frame: bool)
        ensures
            final(self)@ == old(self)@.save(data@, is_key_frame),
    {
        if self.size == 0 {
            return ;
        }
        let ghost before = self@;
        if is_key_frame && self.gops.len() >= self.size - 1 {
            // The window is at capacity: the oldest group goes, and the
            // current group is complete.
            let mut complete = Gop::new();
            std::mem::swap(&mut complete, &mut self.current);
            self.gops.push_back(complete);
            self.gops.pop_front();
            assert(gops_view(self.gops@) =~= before.gops.drop_first());
        }
        let ghost middle = gops_view(self.gops@).push(self.current@);
        assert(middle =~= if before.evicts(is_key_frame) {
            before.gops.drop_first().push(Seq::<MediaFrame>::empty())
        } else {
            before.gops
        });
        self.current.save_frame_data(data);
        assert(self@.gops =~= middle.drop_last().push(middle.last().push(data@)));
    }

    pub fn setted(&self) -> (on: bool)
        ensures
            on == self@.setted(),
    {
        self.size != 0
    }

    pub fn get_gops(&self) -> (copy: VecDeque<Gop>)
        ensures
            gops_view(copy@) == self@.gops,
    {
        let mut copy: VecDeque<Gop> = VecDeque::new();
        let mut i: usize = 0;
        while i < self.gops.len()
            invariant
                i <= self.gops.len(),
                copy@.len() == i,
                forall|j: int| 0 <= j < i ==> (#[trigger] copy@[j])@ == self.gops@[j]@,
            decreases self.gops.len() - i,
        {
            let gop = self.gops[i].duplicate();
            copy.push_back(gop);
            i = i + 1;
        }
        copy.push_back(self.current.duplicate());
        assert(gops_view(copy@) =~= gops_view(self.gops@).push(self.current@));
        copy
    }
}

} // verus!
