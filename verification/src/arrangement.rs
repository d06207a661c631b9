//! The arrangement editor: which clips are selected, what a drag on the timeline does,
//! and what it tells the studio. Times are worked out by the caller, who knows the
//! scale of the timeline; they are compared and handed on here.

use crate::single::{Single, ZERO};
use vstd::prelude::*;

verus! {

/// What a drag on a clip does.
#[derive(Clone, Copy, Debug, PartialEq, Eq, Structural)]
pub enum DragKind {
    /// Moves the clip.
    Move,
    /// Moves its right edge.
    ResizeR,
    /// Moves its left edge.
    ResizeL,
    /// Selects a range of time inside it.
    Select,
}

/// Where a clip lies under the pointer.
#[derive(Clone, Copy, Debug, PartialEq, Eq, Structural)]
pub struct ClipHit {
    /// The lane that the clip is drawn in.
    pub track: usize,
    /// Where it starts.
    pub start: Single,
    /// Where it ends.
    pub end: Single,
    /// From where on the pointer grabs its right edge.
    pub right_from: Single,
    /// Up to where the pointer grabs its left edge.
    pub left_to: Single,
    /// How far the pointer is from its centre.
    pub from_centre: Single,
}

/// Where the pointer is on the timeline.
#[derive(Clone, Copy, Debug, PartialEq, Eq, Structural)]
pub struct Pointer {
    /// The lane it is in, if any.
    pub lane: Option<usize>,
    /// The time it points at.
    pub time: Single,
    /// Whether it is in the upper part of the lane, where the move handles are.
    pub upper: bool,
    /// How far a move handle reaches from the centre of its clip.
    pub handle: Single,
}

/// The pointer is over the clip.
pub open spec fn over(c: ClipHit, p: Pointer) -> bool {
    p.lane == Some(c.track) && c.start.le(p.time) && p.time.le(c.end)
}

/// What a drag of the clip from here does: the edges first, then the handle, else the
/// body.
pub open spec fn grip(c: ClipHit, p: Pointer) -> DragKind {
    if c.right_from.le(p.time) {
        DragKind::ResizeR
    } else if p.time.le(c.left_to) {
        DragKind::ResizeL
    } else if p.upper && c.from_centre.le(p.handle) {
        DragKind::Move
    } else {
        DragKind::Select
    }
}

/// `r` is the topmost clip under the pointer, and what a drag of it does.
pub open spec fn is_hit(clips: Seq<ClipHit>, p: Pointer, r: Option<(usize, DragKind)>) -> bool {
    match r {
        Some((i, k)) => i < clips.len() && over(clips[i as int], p) && k == grip(clips[i as int], p)
            && forall|j: int| i < j < clips.len() ==> !over(#[trigger] clips[j], p),
        None => forall|j: int| 0 <= j < clips.len() ==> !over(#[trigger] clips[j], p),
    }
}

/// The topmost clip under the pointer, and what a drag of it does.
pub fn hit_clip(clips: &Vec<ClipHit>, p: Pointer) -> (r: Option<(usize, DragKind)>)
    ensures
        is_hit(clips@, p, r),
{
    let lane: usize = match p.lane {
        Some(l) => l,
        None => {
            return None;
        },
    };
    let mut i: usize = clips.len();
    while i > 0
        invariant
            p.lane == Some(lane),
            i <= clips@.len(),
            forall|j: int| i <= j < clips@.len() ==> !over(#[trigger] clips@[j], p),
        decreases i,
    {
        i -= 1;
        let c: ClipHit = clips[i];
        if c.track == lane && c.start.less_eq(p.time) && p.time.less_eq(c.end) {
            let kind: DragKind = if c.right_from.less_eq(p.time) {
                DragKind::ResizeR
            } else if p.time.less_eq(c.left_to) {
                DragKind::ResizeL
            } else if p.upper && c.from_centre.less_eq(p.handle) {
                DragKind::Move
            } else {
                DragKind::Select
            };
            return Some((i, kind));
        }
    }
    None
}

/// A clip as the drag rules see it.
#[derive(Clone, Copy, Debug, PartialEq, Eq, Structural)]
pub struct ClipSpan {
    /// The track that it is on.
    pub track: usize,
    /// Where it starts.
    pub start: Single,
    /// Where it ends.
    pub end: Single,
    /// Its stored length.
    pub length: Single,
}

/// What the editor tells the studio.
#[derive(Clone, Copy, Debug, PartialEq, Eq, Structural)]
pub enum Command {
    /// Move the playhead.
    Seek {
        /// Where to.
        t: Single,
    },
    /// Place a clip.
    SetClip {
        /// The clip.
        index: usize,
        /// Where it starts.
        start: Single,
        /// How long it is.
        length: Single,
    },
    /// Trim the front of a clip, its content staying where it is.
    SetClipTrim {
        /// The clip.
        index: usize,
        /// Where it starts.
        start: Single,
        /// How long it is.
        length: Single,
        /// Where its content begins.
        offset: Single,
    },
    /// Add a clip.
    AddClip {
        /// The track that it plays.
        track: usize,
        /// Where it starts.
        start: Single,
        /// How long it is.
        length: Single,
    },
    /// Remove a clip.
    RemoveClip {
        /// The clip.
        index: usize,
    },
    /// Repeat a range of a clip.
    LoopClipRange {
        /// The clip.
        index: usize,
        /// Where the range begins.
        a: Single,
        /// Where it ends.
        b: Single,
    },
    /// Keep only a range of a clip.
    CropClip {
        /// The clip.
        index: usize,
        /// Where the range begins.
        a: Single,
        /// Where it ends.
        b: Single,
    },
    /// Cut a range out of a clip, which leaves two.
    SplitDeleteClip {
        /// The clip.
        index: usize,
        /// Where the range begins.
        a: Single,
        /// Where it ends.
        b: Single,
    },
    /// Play a range of a clip backwards.
    ReverseClipRange {
        /// The clip.
        index: usize,
        /// Where the range begins.
        a: Single,
        /// Where it ends.
        b: Single,
    },
}

/// What can be done with a range of a clip.
#[derive(Clone, Copy, Debug, PartialEq, Eq, Structural)]
pub enum RangeAction {
    /// Repeat it.
    Loop,
    /// Keep only it.
    Crop,
    /// Cut it out.
    Delete,
    /// Play it backwards.
    Reverse,
}

impl RangeAction {
    /// What the studio is told.
    pub open spec fn order(self, index: usize, a: Single, b: Single) -> Command {
        match self {
            RangeAction::Loop => Command::LoopClipRange { index, a, b },
            RangeAction::Crop => Command::CropClip { index, a, b },
            RangeAction::Delete => Command::SplitDeleteClip { index, a, b },
            RangeAction::Reverse => Command::ReverseClipRange { index, a, b },
        }
    }
}

/// Where a clip is drawn.
#[derive(Clone, Copy, Debug, PartialEq, Eq, Structural)]
pub enum Shown {
    /// Where it is.
    InPlace,
    /// Where the drag has it: from `start`, `length` long. If its front is being
    /// trimmed, its content stays where it was.
    Dragged {
        /// Where it starts.
        start: Single,
        /// How long it is.
        length: Single,
        /// Whether its front is being trimmed.
        trimmed: bool,
    },
    /// As far from its place as the drag has moved clip `leader`, which is at `start`.
    Following {
        /// The clip that is dragged.
        leader: usize,
        /// Where that one is.
        start: Single,
    },
}

/// A drag under way: the clip, what the drag does, and two times: where the clip would
/// be placed and how long, or, for a selection, where it began and where it is.
#[derive(Clone, Copy, Debug, PartialEq, Eq, Structural)]
pub struct Drag {
    /// The clip.
    pub clip: usize,
    /// What the drag does.
    pub kind: DragKind,
    /// The first time.
    pub a: Single,
    /// The second time.
    pub b: Single,
}

/// The editor's state.
pub struct Arrangement {
    /// The selected clips.
    pub clips: Vec<usize>,
    /// The range of time selected in a clip.
    pub range: Option<(usize, Single, Single)>,
    /// The selected track.
    pub track: Option<usize>,
    /// The drag under way.
    pub drag: Option<Drag>,
    /// How far from the start of its clip a drag took hold.
    pub grab: Single,
    /// Whether the playhead is being dragged.
    pub seeking: bool,
}

/// The selection with clip `i` switched over.
pub open spec fn toggled(s: Seq<usize>, i: usize) -> Seq<usize> {
    if s.contains(i) {
        s.remove(s.index_of_first(i).unwrap())
    } else {
        s.push(i)
    }
}

/// The selection after clip `i` is pressed to be moved or resized: with shift it is
/// switched over, otherwise it is made the selection unless it is part of it.
pub open spec fn pressed(s: Seq<usize>, i: usize, shift: bool) -> Seq<usize> {
    if shift {
        toggled(s, i)
    } else if s.contains(i) {
        s
    } else {
        seq![i]
    }
}

/// The selection after clip `i` is clicked.
pub open spec fn clicked(s: Seq<usize>, i: usize, shift: bool) -> Seq<usize> {
    if shift {
        toggled(s, i)
    } else {
        seq![i]
    }
}

/// The clips that move with clip `i`: the selection if it is part of it, else itself.
pub open spec fn movers(s: Seq<usize>, i: usize) -> Seq<usize> {
    if s.contains(i) {
        s
    } else {
        seq![i]
    }
}

fn position(s: &Vec<usize>, i: usize) -> (r: Option<usize>)
    ensures
        r is Some <==> s@.contains(i),
        r matches Some(k) ==> s@.index_of_first(i) == Some(k as int) && k < s@.len(),
{
    proof {
        s@.index_of_first_ensures(i);
    }
    let mut k: usize = 0;
    while k < s.len()
        invariant
            k <= s@.len(),
            forall|j: int| 0 <= j < k ==> s@[j] != i,
        decreases s@.len() - k,
    {
        if s[k] == i {
            proof {
                s@.index_of_first_ensures(i);
            }
            return Some(k);
        }
        k += 1;
    }
    None
}

fn toggle(s: &mut Vec<usize>, i: usize)
    ensures
        final(s)@ == toggled(old(s)@, i),
{
    match position(s, i) {
        Some(k) => {
            let _ = s.remove(k);
        },
        None => {
            s.push(i);
        },
    }
}

fn just(i: usize) -> (r: Vec<usize>)
    ensures
        r@ == seq![i],
{
    let r: Vec<usize> = vec![i];
    assert(r@ =~= seq![i]);
    r
}

/// The numbers of `s` below `n`.
pub open spec fn below(s: Seq<usize>, n: int) -> Seq<usize>
    decreases s.len(),
{
    if s.len() == 0 {
        Seq::empty()
    } else {
        let rest = below(s.drop_last(), n);
        if s.last() < n {
            rest.push(s.last())
        } else {
            rest
        }
    }
}

/// What the rest of the state is when only the selection changes.
pub open spec fn same_drag(a: Arrangement, b: Arrangement) -> bool {
    a.drag == b.drag && a.grab == b.grab && a.seeking == b.seeking
}

/// The state before anything is selected.
pub open spec fn is_idle(a: Arrangement) -> bool {
    &&& a.clips@.len() == 0
    &&& a.range is None
    &&& a.track is None
    &&& a.drag is None
    &&& a.grab == (Single { bits: ZERO })
    &&& !a.seeking
}

impl Arrangement {
    /// Nothing selected, nothing under way.
    pub fn new() -> (r: Self)
        ensures
            is_idle(r),
    {
        Arrangement {
            clips: Vec::new(),
            range: None,
            track: None,
            drag: None,
            grab: Single { bits: ZERO },
            seeking: false,
        }
    }

    /// Drops from the selection what is no longer there, `n` clips remaining.
    pub fn forget_missing(&mut self, n: usize)
        ensures
            final(self).clips@ == below(old(self).clips@, n as int),
            final(self).range == match old(self).range {
                Some(r) => if r.0 < n {
                    Some(r)
                } else {
                    None
                },
                None => None,
            },
            final(self).track == old(self).track,
            same_drag(*final(self), *old(self)),
    {
        let mut kept: Vec<usize> = Vec::new();
        let mut i: usize = 0;
        while i < self.clips.len()
            invariant
                self.clips == old(self).clips,
                self.range == old(self).range,
                self.track == old(self).track,
                same_drag(*self, *old(self)),
                i <= self.clips@.len(),
                kept@ == below(self.clips@.take(i as int), n as int),
            decreases self.clips@.len() - i,
        {
            proof {
                assert(self.clips@.take(i + 1).drop_last() =~= self.clips@.take(i as int));
            }
            if self.clips[i] < n {
                kept.push(self.clips[i]);
            }
            i += 1;
        }
        proof {
            assert(self.clips@.take(i as int) =~= self.clips@);
        }
        self.clips = kept;
        if let Some(r) = self.range {
            if r.0 >= n {
                self.range = None;
            }
        }
    }

    /// A drag starts. On a clip's body it begins a range there, at `anchor`; on its
    /// handle or edges it takes hold of the clip, `grab` from its start. On the seek
    /// strip it moves the playhead; elsewhere it does nothing.
    pub fn press(
        &mut self,
        hit: Option<(usize, DragKind)>,
        clips: &Vec<ClipSpan>,
        in_strip: bool,
        shift: bool,
        at: Press,
    ) -> (r: Option<Command>)
        requires
            hit matches Some(h) ==> h.0 < clips@.len(),
        ensures
            hit matches Some((i, k)) ==> {
                &&& r is None
                &&& final(self).track == Some(clips@[i as int].track)
                &&& final(self).seeking == old(self).seeking
                &&& k == DragKind::Select ==> {
                    &&& final(self).drag == Some(Drag { clip: i, kind: k, a: at.anchor, b: at.anchor })
                    &&& final(self).range == Some((i, at.anchor, at.anchor))
                    &&& final(self).clips@ == seq![i]
                    &&& final(self).grab == old(self).grab
                }
                &&& k != DragKind::Select ==> {
                    &&& final(self).drag == Some(
                        Drag { clip: i, kind: k, a: clips@[i as int].start, b: at.len },
                    )
                    &&& final(self).range is None
                    &&& final(self).clips@ == pressed(old(self).clips@, i, shift)
                    &&& final(self).grab == at.grab
                    &&& final(self).shown_at(i) == (Shown::Dragged {
                        start: clips@[i as int].start,
                        length: at.len,
                        trimmed: k == DragKind::ResizeL,
                    })
                }
            },
            hit is None ==> {
                &&& final(self).drag is None
                &&& final(self).clips@ == old(self).clips@
                &&& final(self).range == old(self).range
                &&& final(self).track == old(self).track
                &&& final(self).grab == old(self).grab
                &&& final(self).seeking == (old(self).seeking || in_strip)
                &&& r == if in_strip {
                    Some(Command::Seek { t: at.time })
                } else {
                    None
                }
            },
    {
        match hit {
            Some((i, kind)) => {
                let c: ClipSpan = clips[i];
                if kind == DragKind::Select {
                    self.drag = Some(Drag { clip: i, kind, a: at.anchor, b: at.anchor });
                    self.range = Some((i, at.anchor, at.anchor));
                    self.clips = just(i);
                } else {
                    self.drag = Some(Drag { clip: i, kind, a: c.start, b: at.len });
                    self.grab = at.grab;
                    self.range = None;
                    if shift {
                        toggle(&mut self.clips, i);
                    } else if position(&self.clips, i).is_none() {
                        self.clips = just(i);
                    }
                }
                self.track = Some(c.track);
                None
            },
            None => {
                self.drag = None;
                if in_strip {
                    self.seeking = true;
                    Some(Command::Seek { t: at.time })
                } else {
                    None
                }
            },
        }
    }

    /// A drag goes on: the clip it holds is at `a` and `b` now. A selection keeps
    /// where it began, and `range` is what it spans.
    pub fn drag_to(&mut self, a: Single, b: Single, range: (Single, Single))
        ensures
            old(self).drag is None ==> final(self).drag is None && final(self).range == old(
                self,
            ).range,
            old(self).drag matches Some(d) ==> if d.kind == DragKind::Select {
                &&& final(self).drag == Some(Drag { b, ..d })
                &&& final(self).range == Some((d.clip, range.0, range.1))
            } else {
                &&& final(self).drag == Some(Drag { a, b, ..d })
                &&& final(self).range == old(self).range
                &&& final(self).shown_at(d.clip) == (Shown::Dragged {
                    start: a,
                    length: b,
                    trimmed: d.kind == DragKind::ResizeL,
                })
            },
            final(self).clips@ == old(self).clips@,
            final(self).track == old(self).track,
            final(self).grab == old(self).grab,
            final(self).seeking == old(self).seeking,
    {
        if let Some(d) = self.drag {
            if d.kind == DragKind::Select {
                self.drag = Some(Drag { b, ..d });
                self.range = Some((d.clip, range.0, range.1));
            } else {
                self.drag = Some(Drag { a, b, ..d });
            }
        }
    }

    /// A drag ends. `moved` holds where each clip would start after a move, `offset`
    /// where the dragged clip's content would begin after its front is trimmed.
    pub fn release(
        &mut self,
        clips: &Vec<ClipSpan>,
        moved: &Vec<Single>,
        offset: Single,
    ) -> (r: Vec<Command>)
        requires
            moved@.len() == clips@.len(),
        ensures
            final(self).drag is None,
            !final(self).seeking,
            final(self).clips@ == old(self).clips@,
            final(self).range == old(self).range,
            final(self).track == old(self).track,
            final(self).grab == old(self).grab,
            r@ == told(old(self).drag, old(self).clips@, clips@, moved@, offset),
            old(self).drag matches Some(d) ==> match old(self).shown_at(d.clip) {
                Shown::Dragged { start, length, .. } => {
                    &&& d.kind == DragKind::ResizeR ==> r@.len() == 1 && r@[0]
                        == (Command::SetClip { index: d.clip, start, length })
                    &&& d.kind == DragKind::ResizeL ==> r@.len() == 1 && r@[0]
                        == (Command::SetClipTrim { index: d.clip, start, length, offset })
                },
                _ => d.kind == DragKind::Select && r@.len() == 0,
            },
    {
        self.seeking = false;
        let d: Drag = match self.drag {
            Some(d) => d,
            None => {
                let r: Vec<Command> = Vec::new();
                assert(r@ =~= Seq::empty());
                return r;
            },
        };
        self.drag = None;
        let mut r: Vec<Command> = Vec::new();
        match d.kind {
            DragKind::ResizeR => {
                r.push(Command::SetClip { index: d.clip, start: d.a, length: d.b });
                assert(r@ =~= seq![Command::SetClip { index: d.clip, start: d.a, length: d.b }]);
            },
            DragKind::ResizeL => {
                r.push(Command::SetClipTrim { index: d.clip, start: d.a, length: d.b, offset });
                assert(r@ =~= seq![
                    Command::SetClipTrim { index: d.clip, start: d.a, length: d.b, offset },
                ]);
            },
            DragKind::Move => {
                let sel: Vec<usize> = if position(&self.clips, d.clip).is_some() {
                    self.clips.clone()
                } else {
                    just(d.clip)
                };
                assert(sel@ =~= movers(old(self).clips@, d.clip));
                let mut i: usize = 0;
                while i < sel.len()
                    invariant
                        i <= sel@.len(),
                        moved@.len() == clips@.len(),
                        r@ == placed(sel@.take(i as int), clips@, moved@),
                    decreases sel@.len() - i,
                {
                    proof {
                        assert(sel@.take(i + 1).drop_last() =~= sel@.take(i as int));
                    }
                    let k: usize = sel[i];
                    if k < clips.len() {
                        r.push(
                            Command::SetClip { index: k, start: moved[k], length: clips[k].length },
                        );
                    }
                    i += 1;
                }
                proof {
                    assert(sel@.take(i as int) =~= sel@);
                }
            },
            DragKind::Select => {},
        }
        r
    }

    /// A click selects the clip under the pointer and its track, or the track of the
    /// lane; on the seek strip it moves the playhead.
    pub fn click(
        &mut self,
        hit: Option<(usize, DragKind)>,
        clips: &Vec<ClipSpan>,
        lane: Option<usize>,
        in_strip: bool,
        shift: bool,
        time: Single,
    ) -> (r: Option<Command>)
        requires
            hit matches Some(h) ==> h.0 < clips@.len(),
        ensures
            same_drag(*final(self), *old(self)),
            r == if in_strip {
                Some(Command::Seek { t: time })
            } else {
                None
            },
            in_strip || (hit is None && lane is None) ==> {
                &&& final(self).clips@ == old(self).clips@
                &&& final(self).range == old(self).range
                &&& final(self).track == old(self).track
            },
            !in_strip && hit is Some ==> {
                let i = hit.unwrap().0;
                &&& final(self).clips@ == clicked(old(self).clips@, i, shift)
                &&& final(self).track == Some(clips@[i as int].track)
                &&& final(self).range == match old(self).range {
                    Some(x) => if x.0 == i {
                        Some(x)
                    } else {
                        None
                    },
                    None => None,
                }
            },
            !in_strip && hit is None && lane is Some ==> {
                &&& final(self).clips@.len() == 0
                &&& final(self).range is None
                &&& final(self).track == lane
            },
    {
        if in_strip {
            return Some(Command::Seek { t: time });
        }
        match hit {
            Some((i, _)) => {
                if shift {
                    toggle(&mut self.clips, i);
                } else {
                    self.clips = just(i);
                }
                if let Some(x) = self.range {
                    if x.0 != i {
                        self.range = None;
                    }
                }
                self.track = Some(clips[i].track);
            },
            None => {
                if let Some(l) = lane {
                    self.clips = Vec::new();
                    self.range = None;
                    self.track = Some(l);
                }
            },
        }
        None
    }
}

/// What the caller worked out for a press.
#[derive(Clone, Copy, Debug, PartialEq, Eq, Structural)]
pub struct Press {
    /// The time under the pointer.
    pub time: Single,
    /// That time, kept inside the clip.
    pub anchor: Single,
    /// How far from the start of the clip the pointer is, kept inside it.
    pub grab: Single,
    /// How long the clip plays.
    pub len: Single,
}

/// The placements of the moved clips, those that are there.
pub open spec fn placed(sel: Seq<usize>, clips: Seq<ClipSpan>, moved: Seq<Single>) -> Seq<Command>
    decreases sel.len(),
{
    if sel.len() == 0 {
        Seq::empty()
    } else {
        let rest = placed(sel.drop_last(), clips, moved);
        let k = sel.last();
        if k < clips.len() {
            rest.push(
                Command::SetClip {
                    index: k,
                    start: moved[k as int],
                    length: clips[k as int].length,
                },
            )
        } else {
            rest
        }
    }
}

/// What the end of a drag tells the studio.
pub open spec fn told(
    drag: Option<Drag>,
    sel: Seq<usize>,
    clips: Seq<ClipSpan>,
    moved: Seq<Single>,
    offset: Single,
) -> Seq<Command> {
    match drag {
        None => Seq::empty(),
        Some(d) => match d.kind {
            DragKind::ResizeR => seq![Command::SetClip { index: d.clip, start: d.a, length: d.b }],
            DragKind::ResizeL => seq![
                Command::SetClipTrim { index: d.clip, start: d.a, length: d.b, offset },
            ],
            DragKind::Move => placed(movers(sel, d.clip), clips, moved),
            DragKind::Select => Seq::empty(),
        },
    }
}

/// A finished resize tells the studio where the clip was shown while it was dragged: the
/// one command names the clip, with the start and the length that the drag gave it. Its
/// content begins anew only if its front was trimmed.
pub proof fn resizes_end_as_they_were_shown(
    a: Arrangement,
    d: Drag,
    clips: Seq<ClipSpan>,
    moved: Seq<Single>,
    offset: Single,
)
    requires
        a.drag == Some(d),
        d.kind == DragKind::ResizeR || d.kind == DragKind::ResizeL,
    ensures
        told(a.drag, a.clips@, clips, moved, offset).len() == 1,
        a.shown_at(d.clip) matches Shown::Dragged { start, length, trimmed } && start == d.a
            && length == d.b && trimmed == (d.kind == DragKind::ResizeL),
        d.kind == DragKind::ResizeR ==> (told(
            a.drag,
            a.clips@,
            clips,
            moved,
            offset,
        )[0] matches Command::SetClip { index, start, length } && index == d.clip && start == d.a
            && length == d.b),
        d.kind == DragKind::ResizeL ==> (told(
            a.drag,
            a.clips@,
            clips,
            moved,
            offset,
        )[0] matches Command::SetClipTrim { index, start, length, offset: o } && index == d.clip
            && start == d.a && length == d.b && o == offset),
{
}

/// Selecting a range, or ending no drag at all, tells the studio nothing.
pub proof fn selections_move_nothing(
    a: Arrangement,
    clips: Seq<ClipSpan>,
    moved: Seq<Single>,
    offset: Single,
    i: usize,
)
    requires
        a.drag is None || a.drag.unwrap().kind == DragKind::Select,
    ensures
        told(a.drag, a.clips@, clips, moved, offset).len() == 0,
        a.shown_at(i) == Shown::InPlace,
{
}

/// A finished move places the clip that was dragged, and with it the whole selection if it
/// is part of that: each of these clips that is there once, in the order of the selection,
/// at the start worked out for it and with its stored length. No other clip is touched.
/// `order` says which of them each command places.
pub proof fn moves_place_the_whole_selection(
    a: Arrangement,
    d: Drag,
    clips: Seq<ClipSpan>,
    moved: Seq<Single>,
    offset: Single,
) -> (order: Seq<int>)
    requires
        a.drag == Some(d),
        d.kind == DragKind::Move,
    ensures
        order.len() == told(a.drag, a.clips@, clips, moved, offset).len(),
        forall|j: int, k: int| 0 <= j < k < order.len() ==> order[j] < order[k],
        a.clips@.contains(d.clip) ==> {
            &&& forall|j: int|
                0 <= j < order.len() ==> {
                    let k = #[trigger] order[j];
                    &&& 0 <= k < a.clips@.len()
                    &&& places(
                        told(a.drag, a.clips@, clips, moved, offset)[j],
                        a.clips@[k],
                        clips,
                        moved,
                    )
                }
            &&& forall|k: int|
                0 <= k < a.clips@.len() && (#[trigger] a.clips@[k]) < clips.len()
                    ==> order.contains(k)
        },
        !a.clips@.contains(d.clip) && d.clip < clips.len() ==> {
            &&& order.len() == 1
            &&& places(told(a.drag, a.clips@, clips, moved, offset)[0], d.clip, clips, moved)
        },
        !a.clips@.contains(d.clip) && d.clip >= clips.len() ==> order.len() == 0,
{
    let sel = movers(a.clips@, d.clip);
    let order = lemma_placed(sel, clips, moved);
    if !a.clips@.contains(d.clip) {
        assert(sel =~= seq![d.clip]);
        if d.clip < clips.len() {
            assert(sel[0] == d.clip);
            assert(order.contains(0));
            let j = choose|j: int| 0 <= j < order.len() && order[j] == 0;
            if order.len() > 1 {
                assert(order[0] < order[1]);
                assert(places(placed(sel, clips, moved)[1], sel[order[1]], clips, moved));
            }
            assert(places(placed(sel, clips, moved)[0], sel[order[0]], clips, moved));
        } else if order.len() > 0 {
            assert(places(placed(sel, clips, moved)[0], sel[order[0]], clips, moved));
        }
    }
    order
}

/// The command places clip `i`, which is there, at its new start and with its own length.
pub open spec fn places(
    c: Command,
    i: usize,
    clips: Seq<ClipSpan>,
    moved: Seq<Single>,
) -> bool {
    &&& i < clips.len()
    &&& c matches Command::SetClip { index, start, length } && index == i && start
        == moved[i as int] && length == clips[i as int].length
}

proof fn lemma_placed(sel: Seq<usize>, clips: Seq<ClipSpan>, moved: Seq<Single>) -> (order: Seq<
    int,
>)
    ensures
        order.len() == placed(sel, clips, moved).len(),
        forall|j: int, k: int| 0 <= j < k < order.len() ==> order[j] < order[k],
        forall|j: int|
            0 <= j < order.len() ==> {
                let k = #[trigger] order[j];
                &&& 0 <= k < sel.len()
                &&& places(placed(sel, clips, moved)[j], sel[k], clips, moved)
            },
        forall|k: int|
            0 <= k < sel.len() && (#[trigger] sel[k]) < clips.len() ==> order.contains(k),
    decreases sel.len(),
{
    if sel.len() == 0 {
        Seq::empty()
    } else {
        let head = sel.drop_last();
        let rest = lemma_placed(head, clips, moved);
        let last = sel.len() - 1;
        let order = if sel.last() < clips.len() {
            rest.push(last)
        } else {
            rest
        };
        assert forall|k: int| 0 <= k < head.len() implies head[k] == sel[k] by {}
        assert forall|k: int| 0 <= k < sel.len() && (#[trigger] sel[k]) < clips.len() implies
            order.contains(k) by {
            if k < last {
                assert(head[k] < clips.len());
                let j = choose|j: int| 0 <= j < rest.len() && rest[j] == k;
                assert(order[j] == k);
            } else {
                assert(order[rest.len() as int] == k);
            }
        }
        assert forall|j: int| 0 <= j < order.len() implies {
            let k = #[trigger] order[j];
            &&& 0 <= k < sel.len()
            &&& places(placed(sel, clips, moved)[j], sel[k], clips, moved)
        } by {
            if j < rest.len() {
                assert(order[j] == rest[j]);
                assert(places(placed(head, clips, moved)[j], head[rest[j]], clips, moved));
                assert(placed(sel, clips, moved)[j] == placed(head, clips, moved)[j]);
            }
        }
        order
    }
}

/// While a clip is moved, the clips selected with it follow it, as far as it is selected
/// itself; nothing else is shown out of place.
pub proof fn clips_are_shown_where_the_drag_has_them(a: Arrangement, d: Drag, i: usize)
    requires
        a.drag == Some(d),
    ensures
        i == d.clip && d.kind != DragKind::Select ==> (a.shown_at(i) matches Shown::Dragged {
            start,
            length,
            trimmed,
        } && start == d.a && length == d.b && (trimmed <==> d.kind == DragKind::ResizeL)),
        i != d.clip && d.kind == DragKind::Move && a.clips@.contains(i) && a.clips@.contains(d.clip)
            ==> (a.shown_at(i) matches Shown::Following { leader, start } && leader == d.clip
            && start == d.a),
        i != d.clip && !(d.kind == DragKind::Move && a.clips@.contains(i) && a.clips@.contains(
            d.clip,
        )) ==> a.shown_at(i) == Shown::InPlace,
{
}

/// Switching a clip over puts it into the selection or takes it out, and leaves the others;
/// switching it twice leaves what was selected.
pub proof fn toggling_switches_one_clip(s: Seq<usize>, i: usize)
    requires
        s.no_duplicates(),
    ensures
        toggled(s, i).no_duplicates(),
        toggled(s, i).contains(i) <==> !s.contains(i),
        forall|j: usize| j != i ==> (#[trigger] toggled(s, i).contains(j) <==> s.contains(j)),
        forall|j: usize| #[trigger] toggled(toggled(s, i), i).contains(j) <==> s.contains(j),
{
    lemma_toggled(s, i);
    lemma_toggled(toggled(s, i), i);
}

proof fn lemma_toggled(s: Seq<usize>, i: usize)
    requires
        s.no_duplicates(),
    ensures
        toggled(s, i).no_duplicates(),
        toggled(s, i).contains(i) <==> !s.contains(i),
        forall|j: usize| j != i ==> (#[trigger] toggled(s, i).contains(j) <==> s.contains(j)),
{
    let t = toggled(s, i);
    s.index_of_first_ensures(i);
    if s.contains(i) {
        let p = s.index_of_first(i).unwrap();
        assert forall|j: usize| j != i implies (#[trigger] t.contains(j) <==> s.contains(j)) by {
            if s.contains(j) {
                let k = choose|k: int| 0 <= k < s.len() && s[k] == j;
                assert(t[if k < p {
                    k
                } else {
                    k - 1
                }] == j);
            }
            if t.contains(j) {
                let k = choose|k: int| 0 <= k < t.len() && t[k] == j;
                assert(s[if k < p {
                    k
                } else {
                    k + 1
                }] == j);
            }
        }
        assert(!t.contains(i)) by {
            if t.contains(i) {
                let k = choose|k: int| 0 <= k < t.len() && t[k] == i;
                assert(s[if k < p {
                    k
                } else {
                    k + 1
                }] == i);
            }
        }
    } else {
        assert(t[s.len() as int] == i);
        assert forall|j: usize| j != i implies (#[trigger] t.contains(j) <==> s.contains(j)) by {
            if s.contains(j) {
                let k = choose|k: int| 0 <= k < s.len() && s[k] == j;
                assert(t[k] == j);
            }
        }
    }
}

/// Pressing a clip without shift leaves it selected, with the others if it was selected
/// already and alone if not; clicking it leaves it alone. With shift it is switched over.
/// What moves with a clip is the selection, if it is part of that.
pub proof fn pressing_keeps_a_selection_together(s: Seq<usize>, i: usize)
    ensures
        s.contains(i) ==> pressed(s, i, false) == s && movers(s, i) == s,
        !s.contains(i) ==> pressed(s, i, false).len() == 1 && pressed(s, i, false)[0] == i,
        !s.contains(i) ==> movers(s, i).len() == 1 && movers(s, i)[0] == i,
        clicked(s, i, false).len() == 1 && clicked(s, i, false)[0] == i,
        pressed(s, i, true) == clicked(s, i, true),
        !s.contains(i) ==> clicked(s, i, true) == s.push(i),
        s.no_duplicates() && s.contains(i) ==> !clicked(s, i, true).contains(i),
        movers(s, i).contains(i),
{
    if s.no_duplicates() {
        lemma_toggled(s, i);
    }
    if !s.contains(i) {
        assert(movers(s, i)[0] == i);
    }
}

/// Forgetting what is gone keeps exactly the numbers that are still there, in order.
pub proof fn only_what_is_there_is_kept(s: Seq<usize>, n: int) -> (order: Seq<int>)
    ensures
        order.len() == below(s, n).len(),
        forall|j: int, k: int| 0 <= j < k < order.len() ==> order[j] < order[k],
        forall|j: int|
            0 <= j < order.len() ==> 0 <= (#[trigger] order[j]) < s.len() && below(s, n)[j]
                == s[order[j]] && s[order[j]] < n,
        forall|k: int| 0 <= k < s.len() && (#[trigger] s[k]) < n ==> order.contains(k),
    decreases s.len(),
{
    if s.len() == 0 {
        Seq::empty()
    } else {
        let head = s.drop_last();
        let rest = only_what_is_there_is_kept(head, n);
        let last = s.len() - 1;
        let order = if s.last() < n {
            rest.push(last)
        } else {
            rest
        };
        assert forall|k: int| 0 <= k < head.len() implies head[k] == s[k] by {}
        assert forall|k: int| 0 <= k < s.len() && (#[trigger] s[k]) < n implies order.contains(
            k,
        ) by {
            if k < last {
                assert(head[k] < n);
                let j = choose|j: int| 0 <= j < rest.len() && rest[j] == k;
                assert(order[j] == k);
            } else {
                assert(order[rest.len() as int] == k);
            }
        }
        assert forall|j: int| 0 <= j < order.len() implies 0 <= (#[trigger] order[j]) < s.len()
            && below(s, n)[j] == s[order[j]] && s[order[j]] < n by {
            if j < rest.len() {
                assert(order[j] == rest[j]);
                assert(head[rest[j]] == s[rest[j]]);
                assert(below(s, n)[j] == below(head, n)[j]);
            }
        }
        order
    }
}

/// What is done with a range is done with that clip and that range, and is what was asked
/// for. A range can be acted on exactly if it is not empty and of the only selected clip.
pub proof fn ranges_are_acted_on_as_asked(a: Arrangement, index: usize, from: Single, to: Single)
    ensures
        RangeAction::Loop.order(index, from, to) matches Command::LoopClipRange { index: i, a, b }
            && i == index && a == from && b == to,
        RangeAction::Crop.order(index, from, to) matches Command::CropClip { index: i, a, b } && i
            == index && a == from && b == to,
        RangeAction::Delete.order(index, from, to) matches Command::SplitDeleteClip {
            index: i,
            a,
            b,
        } && i == index && a == from && b == to,
        RangeAction::Reverse.order(index, from, to) matches Command::ReverseClipRange {
            index: i,
            a,
            b,
        } && i == index && a == from && b == to,
        a.live_range() == Some((index, from, to)) <==> a.range == Some((index, from, to))
            && a.clips@.len() == 1 && a.clips@[0] == index && from.lt(to),
        a.live_range() is Some ==> a.live_range() == a.range,
{
    if a.clips@.len() == 1 && a.clips@[0] == index {
        assert(a.clips@ =~= seq![index]);
    }
}

/// A double click adds a clip exactly where there is none, on the track of the lane, from
/// the time under the pointer or from zero, one period of that track long.
pub proof fn double_clicks_add_one_period(
    hit: Option<(usize, DragKind)>,
    lane: Option<usize>,
    start: Single,
    periods: Seq<Single>,
)
    ensures
        clip_added(hit, lane, start, periods) is Some <==> hit is None && lane is Some,
        clip_added(hit, lane, start, periods) matches Some(c) ==> (c matches Command::AddClip {
            track,
            start: at,
            length,
        } && lane == Some(track) && (Single { bits: 0 }).le(at) && (Single { bits: 0 }).le(length)
            && ((Single { bits: 0 }).le(start) ==> at == start) && (start.lt(Single { bits: 0 })
            ==> at.bits == 0) && (track < periods.len() && (Single { bits: 0 }).le(
            periods[track as int],
        ) ==> length == periods[track as int]) && (track >= periods.len() ==> length.bits == 0)),
{
}

/// What a drag does depends on where it takes hold: of the right edge from its reach on,
/// else of the left edge up to its reach, else of the handle around the centre in the upper
/// part, and of the body everywhere else. A clip is held only in its own lane and between
/// its ends.
pub proof fn clips_are_held_where_they_are_touched(c: ClipHit, p: Pointer)
    ensures
        over(c, p) <==> p.lane == Some(c.track) && c.start.le(p.time) && p.time.le(c.end),
        c.right_from.le(p.time) ==> grip(c, p) == DragKind::ResizeR,
        grip(c, p) == DragKind::ResizeR ==> c.right_from.le(p.time),
        grip(c, p) == DragKind::ResizeL <==> !c.right_from.le(p.time) && p.time.le(c.left_to),
        grip(c, p) == DragKind::Move ==> p.upper && c.from_centre.le(p.handle),
        !c.right_from.le(p.time) && !p.time.le(c.left_to) && p.upper && c.from_centre.le(p.handle)
            ==> grip(c, p) == DragKind::Move,
        !p.upper && grip(c, p) != DragKind::ResizeR && grip(c, p) != DragKind::ResizeL ==> grip(
            c,
            p,
        ) == DragKind::Select,
{
}

/// The bit pattern of infinity: no limit.
pub const NO_LIMIT: u32 = 0x7F80_0000;

/// How far right the right edge of clip `i` can go, looking at the first `n` clips: to
/// the nearest start at or after its own on its track.
pub open spec fn right_limit_of(clips: Seq<ClipSpan>, i: int, n: int) -> Single
    decreases n,
{
    if n <= 0 {
        Single { bits: NO_LIMIT }
    } else {
        let rest = right_limit_of(clips, i, n - 1);
        let o = clips[n - 1];
        if n - 1 != i && o.track == clips[i].track && clips[i].start.le(o.start) {
            rest.smaller(o.start)
        } else {
            rest
        }
    }
}

/// How far right the right edge of clip `i` can go.
pub fn right_limit(clips: &Vec<ClipSpan>, i: usize) -> (r: Single)
    requires
        i < clips@.len(),
    ensures
        r == right_limit_of(clips@, i as int, clips@.len() as int),
{
    let c: ClipSpan = clips[i];
    let mut limit = Single { bits: NO_LIMIT };
    let mut k: usize = 0;
    while k < clips.len()
        invariant
            i < clips@.len(),
            c == clips@[i as int],
            k <= clips@.len(),
            limit == right_limit_of(clips@, i as int, k as int),
        decreases clips@.len() - k,
    {
        let o: ClipSpan = clips[k];
        if k != i && o.track == c.track && c.start.less_eq(o.start) {
            limit = limit.min(o.start);
        }
        k += 1;
    }
    limit
}

/// How far left the left edge of clip `i`, which ends at `end`, can go, looking at the
/// first `n` clips: to the latest end at or before its own on its track.
pub open spec fn left_limit_of(clips: Seq<ClipSpan>, i: int, end: Single, n: int) -> Single
    decreases n,
{
    if n <= 0 {
        Single { bits: ZERO }
    } else {
        let rest = left_limit_of(clips, i, end, n - 1);
        let o = clips[n - 1];
        if n - 1 != i && o.track == clips[i].track && o.end.le(end) {
            rest.larger(o.end)
        } else {
            rest
        }
    }
}

/// How far left the left edge of clip `i`, which ends at `end`, can go.
pub fn left_limit(clips: &Vec<ClipSpan>, i: usize, end: Single) -> (r: Single)
    requires
        i < clips@.len(),
    ensures
        r == left_limit_of(clips@, i as int, end, clips@.len() as int),
{
    let c: ClipSpan = clips[i];
    let mut limit = Single { bits: ZERO };
    let mut k: usize = 0;
    while k < clips.len()
        invariant
            i < clips@.len(),
            c == clips@[i as int],
            k <= clips@.len(),
            limit == left_limit_of(clips@, i as int, end, k as int),
        decreases clips@.len() - k,
    {
        let o: ClipSpan = clips[k];
        if k != i && o.track == c.track && o.end.less_eq(end) {
            limit = limit.max(o.end);
        }
        k += 1;
    }
    limit
}

/// The right edge of a clip can go exactly to the nearest start at or after its own on
/// its track: the limit is at most each of those starts, and it is one of them if there
/// are any.
pub proof fn right_limit_is_the_nearest_start(clips: Seq<ClipSpan>, i: int, n: int)
    requires
        0 <= n <= clips.len(),
        0 <= i < clips.len(),
    ensures
        !right_limit_of(clips, i, n).is_nan(),
        forall|k: int|
            0 <= k < n && k != i && (#[trigger] clips[k]).track == clips[i].track
                && clips[i].start.le(clips[k].start) ==> right_limit_of(clips, i, n).le(
                clips[k].start,
            ),
        right_limit_of(clips, i, n) == (Single { bits: NO_LIMIT }) || exists|k: int|
            0 <= k < n && k != i && (#[trigger] clips[k]).track == clips[i].track
                && clips[i].start.le(clips[k].start) && right_limit_of(clips, i, n)
                == clips[k].start,
    decreases n,
{
    if n > 0 {
        right_limit_is_the_nearest_start(clips, i, n - 1);
        let o = clips[n - 1];
        if n - 1 != i && o.track == clips[i].track && clips[i].start.le(o.start) {
            let rest = right_limit_of(clips, i, n - 1);
            assert(right_limit_of(clips, i, n) == rest.smaller(o.start));
            lemma_smaller(rest, o.start);
        }
    }
}

/// The left edge of a clip can go exactly to the latest end at or before its own on its
/// track: the limit is at least zero and each of those ends, and it is one of them or
/// zero.
pub proof fn left_limit_is_the_latest_end(clips: Seq<ClipSpan>, i: int, end: Single, n: int)
    requires
        0 <= n <= clips.len(),
        0 <= i < clips.len(),
    ensures
        (Single { bits: ZERO }).le(left_limit_of(clips, i, end, n)),
        forall|k: int|
            0 <= k < n && k != i && (#[trigger] clips[k]).track == clips[i].track
                && clips[k].end.le(end) ==> clips[k].end.le(left_limit_of(clips, i, end, n)),
        left_limit_of(clips, i, end, n) == (Single { bits: ZERO }) || exists|k: int|
            0 <= k < n && k != i && (#[trigger] clips[k]).track == clips[i].track
                && clips[k].end.le(end) && left_limit_of(clips, i, end, n) == clips[k].end,
    decreases n,
{
    if n > 0 {
        left_limit_is_the_latest_end(clips, i, end, n - 1);
        let o = clips[n - 1];
        if n - 1 != i && o.track == clips[i].track && o.end.le(end) {
            let rest = left_limit_of(clips, i, end, n - 1);
            assert(left_limit_of(clips, i, end, n) == rest.larger(o.end));
        }
    }
}

proof fn lemma_smaller(a: Single, b: Single)
    requires
        !a.is_nan(),
    ensures
        !a.smaller(b).is_nan(),
        a.smaller(b).le(a),
        !b.is_nan() ==> a.smaller(b).le(b),
        a.smaller(b) == a || a.smaller(b) == b,
{
}

/// Between which starts clip `i`, which ends at `end`, can move, looking at the first
/// `n` clips: after the ends of those before it and, where `latest` says so, before those
/// after it. Clips that move along do not count.
pub open spec fn move_limits_of(
    clips: Seq<ClipSpan>,
    latest: Seq<Single>,
    sel: Seq<usize>,
    i: usize,
    end: Single,
    n: int,
) -> (Single, Single)
    decreases n,
{
    if n <= 0 {
        (Single { bits: ZERO }, Single { bits: NO_LIMIT })
    } else {
        let (lo, hi) = move_limits_of(clips, latest, sel, i, end, n - 1);
        let o = clips[n - 1];
        if o.track != clips[i as int].track || movers(sel, i).contains((n - 1) as usize) {
            (lo, hi)
        } else if o.end.le(clips[i as int].start) {
            (lo.larger(o.end), hi)
        } else if end.le(o.start) {
            (lo, hi.smaller(latest[n - 1]))
        } else {
            (lo, hi)
        }
    }
}

/// Between which starts clip `i`, which ends at `end`, can move. `latest` holds, for each
/// clip, the start at which clip `i` would just touch it from the left.
pub fn move_limits(
    clips: &Vec<ClipSpan>,
    latest: &Vec<Single>,
    sel: &Vec<usize>,
    i: usize,
    end: Single,
) -> (r: (Single, Single))
    requires
        i < clips@.len(),
        latest@.len() == clips@.len(),
    ensures
        r == move_limits_of(clips@, latest@, sel@, i, end, clips@.len() as int),
{
    let c: ClipSpan = clips[i];
    let with_sel: bool = position(sel, i).is_some();
    let mut lo = Single { bits: ZERO };
    let mut hi = Single { bits: NO_LIMIT };
    let mut k: usize = 0;
    while k < clips.len()
        invariant
            i < clips@.len() == latest@.len(),
            c == clips@[i as int],
            with_sel == sel@.contains(i),
            k <= clips@.len(),
            (lo, hi) == move_limits_of(clips@, latest@, sel@, i, end, k as int),
        decreases clips@.len() - k,
    {
        let o: ClipSpan = clips[k];
        let along: bool = if with_sel {
            position(sel, k).is_some()
        } else {
            k == i
        };
        proof {
            if !with_sel {
                assert(seq![i].contains(k) <==> k == i) by {
                    assert(seq![i][0] == i);
                }
            }
            assert(along == movers(sel@, i).contains(k));
        }
        if o.track == c.track && !along {
            if o.end.less_eq(c.start) {
                lo = lo.max(o.end);
            } else if end.less_eq(o.start) {
                hi = hi.min(latest[k]);
            }
        }
        k += 1;
    }
    (lo, hi)
}

/// A clip that starts no earlier than the lower limit stays clear of every clip before it.
pub proof fn moved_clips_clear_their_neighbours(
    clips: Seq<ClipSpan>,
    latest: Seq<Single>,
    sel: Seq<usize>,
    i: usize,
    end: Single,
    n: int,
    k: int,
)
    requires
        0 <= k < n <= clips.len() <= usize::MAX,
        clips[k].track == clips[i as int].track,
        !movers(sel, i).contains(k as usize),
        clips[k].end.le(clips[i as int].start),
    ensures
        clips[k].end.le(move_limits_of(clips, latest, sel, i, end, n).0),
        !move_limits_of(clips, latest, sel, i, end, n).0.is_nan(),
    decreases n,
{
    lemma_lower_limit_is_a_number(clips, latest, sel, i, end, n - 1);
    if k < n - 1 {
        moved_clips_clear_their_neighbours(clips, latest, sel, i, end, n - 1, k);
    }
}

/// Clip `k` is after clip `i`, which ends at `end`, and in the way when that moves.
pub open spec fn is_in_the_way(
    clips: Seq<ClipSpan>,
    sel: Seq<usize>,
    i: usize,
    end: Single,
    k: int,
) -> bool {
    &&& clips[k].track == clips[i as int].track
    &&& !movers(sel, i).contains(k as usize)
    &&& !clips[k].end.le(clips[i as int].start)
    &&& end.le(clips[k].start)
}

/// A clip that starts no later than the upper limit stays clear of every clip after it:
/// the limit is at most the latest start for each of those that has one, and it is one of
/// these if there are any.
pub proof fn moved_clips_stop_at_what_is_after_them(
    clips: Seq<ClipSpan>,
    latest: Seq<Single>,
    sel: Seq<usize>,
    i: usize,
    end: Single,
    n: int,
)
    requires
        0 <= n <= clips.len() <= usize::MAX,
    ensures
        !move_limits_of(clips, latest, sel, i, end, n).1.is_nan(),
        forall|k: int|
            0 <= k < n && #[trigger] is_in_the_way(clips, sel, i, end, k) && !latest[k].is_nan()
                ==> move_limits_of(clips, latest, sel, i, end, n).1.le(latest[k]),
        move_limits_of(clips, latest, sel, i, end, n).1 == (Single { bits: NO_LIMIT })
            || exists|k: int|
            0 <= k < n && #[trigger] is_in_the_way(clips, sel, i, end, k) && move_limits_of(
                clips,
                latest,
                sel,
                i,
                end,
                n,
            ).1 == latest[k],
    decreases n,
{
    if n > 0 {
        moved_clips_stop_at_what_is_after_them(clips, latest, sel, i, end, n - 1);
        let rest = move_limits_of(clips, latest, sel, i, end, n - 1).1;
        let hi = move_limits_of(clips, latest, sel, i, end, n).1;
        if is_in_the_way(clips, sel, i, end, n - 1) {
            assert(hi == rest.smaller(latest[n - 1]));
            lemma_smaller(rest, latest[n - 1]);
        } else {
            assert(hi == rest);
        }
    }
}

proof fn lemma_lower_limit_is_a_number(
    clips: Seq<ClipSpan>,
    latest: Seq<Single>,
    sel: Seq<usize>,
    i: usize,
    end: Single,
    n: int,
)
    ensures
        !move_limits_of(clips, latest, sel, i, end, n).0.is_nan(),
    decreases n,
{
    if n > 0 {
        lemma_lower_limit_is_a_number(clips, latest, sel, i, end, n - 1);
    }
}

impl Arrangement {
    /// The track that the controls are for, `n` tracks being there: the selected one, or
    /// else the first.
    pub fn panel_track(&mut self, n: usize) -> (r: Option<usize>)
        ensures
            r == match old(self).track {
                Some(t) => if t < n {
                    Some(t)
                } else if n > 0 {
                    Some(0)
                } else {
                    None
                },
                None => if n > 0 {
                    Some(0)
                } else {
                    None
                },
            },
            final(self).track == r,
            final(self).clips@ == old(self).clips@,
            final(self).range == old(self).range,
            same_drag(*final(self), *old(self)),
    {
        let keep: bool = match self.track {
            Some(t) => t < n,
            None => false,
        };
        if !keep {
            self.track = if n > 0 {
                Some(0)
            } else {
                None
            };
        }
        self.track
    }

    /// The range that can be acted on: one that is not empty, of the only selected clip.
    pub open spec fn live_range(self) -> Option<(usize, Single, Single)> {
        match self.range {
            Some((i, a, b)) => if self.clips@ == seq![i] && a.lt(b) {
                Some((i, a, b))
            } else {
                None
            },
            None => None,
        }
    }

    /// Acts on the selected range, if there is one, and gives it up. Cutting it out gives
    /// up the clip too, which is two clips then.
    pub fn act_on_range(&mut self, action: RangeAction) -> (r: Option<Command>)
        ensures
            match old(self).live_range() {
                Some((i, a, b)) => {
                    &&& r == Some(action.order(i, a, b))
                    &&& final(self).range is None
                    &&& final(self).clips@ == if action == RangeAction::Delete {
                        Seq::empty()
                    } else {
                        old(self).clips@
                    }
                },
                None => {
                    &&& r is None
                    &&& final(self).range == old(self).range
                    &&& final(self).clips@ == old(self).clips@
                },
            },
            final(self).track == old(self).track,
            same_drag(*final(self), *old(self)),
    {
        let (index, a, b) = match self.range {
            Some(x) => x,
            None => return None,
        };
        if self.clips.len() != 1 || self.clips[0] != index || !a.less(b) {
            return None;
        }
        assert(self.clips@ =~= seq![index]);
        self.range = None;
        let r: Command = match action {
            RangeAction::Loop => Command::LoopClipRange { index, a, b },
            RangeAction::Crop => Command::CropClip { index, a, b },
            RangeAction::Delete => Command::SplitDeleteClip { index, a, b },
            RangeAction::Reverse => Command::ReverseClipRange { index, a, b },
        };
        if action == RangeAction::Delete {
            self.clips = Vec::new();
        }
        Some(r)
    }

    /// Removes the only selected clip, and selects none.
    pub fn delete_clip(&mut self) -> (r: Option<Command>)
        ensures
            old(self).clips@.len() == 1 ==> {
                &&& r == Some(Command::RemoveClip { index: old(self).clips@[0] })
                &&& final(self).clips@.len() == 0
                &&& final(self).range is None
            },
            old(self).clips@.len() != 1 ==> {
                &&& r is None
                &&& final(self).clips@ == old(self).clips@
                &&& final(self).range == old(self).range
            },
            final(self).track == old(self).track,
            same_drag(*final(self), *old(self)),
    {
        if self.clips.len() != 1 {
            return None;
        }
        let index: usize = self.clips[0];
        self.clear_clips();
        Some(Command::RemoveClip { index })
    }

    /// Where clip `i` is drawn while a drag is under way: the dragged clip where the drag
    /// has it, and the clips selected with it as far along. Selecting a range moves
    /// nothing.
    pub open spec fn shown_at(self, i: usize) -> Shown {
        match self.drag {
            Some(d) => if d.clip == i && d.kind != DragKind::Select {
                Shown::Dragged { start: d.a, length: d.b, trimmed: d.kind == DragKind::ResizeL }
            } else if d.kind == DragKind::Move && self.clips@.contains(i) && self.clips@.contains(
                d.clip,
            ) {
                Shown::Following { leader: d.clip, start: d.a }
            } else {
                Shown::InPlace
            },
            None => Shown::InPlace,
        }
    }

    /// Where clip `i` is drawn.
    pub fn shown(&self, i: usize) -> (r: Shown)
        ensures
            r == self.shown_at(i),
    {
        match self.drag {
            Some(d) => {
                if d.clip == i && d.kind != DragKind::Select {
                    Shown::Dragged { start: d.a, length: d.b, trimmed: d.kind == DragKind::ResizeL }
                } else if d.kind == DragKind::Move && position(&self.clips, i).is_some()
                    && position(&self.clips, d.clip).is_some() {
                    Shown::Following { leader: d.clip, start: d.a }
                } else {
                    Shown::InPlace
                }
            },
            None => Shown::InPlace,
        }
    }

    /// Selects no clip and no range.
    pub fn clear_clips(&mut self)
        ensures
            final(self).clips@.len() == 0,
            final(self).range is None,
            final(self).track == old(self).track,
            same_drag(*final(self), *old(self)),
    {
        self.clips = Vec::new();
        self.range = None;
    }

    /// Selects nothing, the selected track being deleted.
    pub fn track_deleted(&mut self)
        ensures
            final(self).clips@.len() == 0,
            final(self).range is None,
            final(self).track is None,
            same_drag(*final(self), *old(self)),
    {
        self.clear_clips();
        self.track = None;
    }

    /// Removes the selected clips, the last one first, so that the numbers of those still
    /// to be removed stay right.
    pub fn delete_clips(&mut self) -> (r: Vec<Command>)
        ensures
            r@.len() == old(self).clips@.len(),
            exists|order: Seq<usize>|
                #[trigger] is_descending(old(self).clips@, order) && forall|k: int|
                    0 <= k < r@.len() ==> #[trigger] r@[k] == (Command::RemoveClip {
                        index: order[k],
                    }),
            final(self).clips@.len() == 0,
            final(self).range == old(self).range,
            final(self).track == old(self).track,
            same_drag(*final(self), *old(self)),
    {
        let order = descending(&self.clips);
        let mut r: Vec<Command> = Vec::new();
        let mut i: usize = 0;
        while i < order.len()
            invariant
                i <= order@.len(),
                r@.len() == i,
                forall|k: int|
                    0 <= k < i ==> #[trigger] r@[k] == (Command::RemoveClip { index: order@[k] }),
            decreases order@.len() - i,
        {
            r.push(Command::RemoveClip { index: order[i] });
            i += 1;
        }
        self.clips = Vec::new();
        proof {
            old(self).clips@.to_multiset_ensures();
            order@.to_multiset_ensures();
        }
        r
    }
}

/// What a double click adds: where no clip is, a clip of the lane's track, one period
/// long. Neither its start nor its length is below zero.
pub open spec fn clip_added(
    hit: Option<(usize, DragKind)>,
    lane: Option<usize>,
    start: Single,
    periods: Seq<Single>,
) -> Option<Command> {
    match (hit, lane) {
        (None, Some(track)) => Some(
            Command::AddClip {
                track,
                start: start.larger(Single { bits: ZERO }),
                length: (if track < periods.len() {
                    periods[track as int]
                } else {
                    Single { bits: ZERO }
                }).larger(Single { bits: ZERO }),
            },
        ),
        _ => None,
    }
}

/// What a double click adds, given the time under the pointer and the period of each
/// track.
pub fn double_click(
    hit: Option<(usize, DragKind)>,
    lane: Option<usize>,
    start: Single,
    periods: &Vec<Single>,
) -> (r: Option<Command>)
    ensures
        r == clip_added(hit, lane, start, periods@),
{
    match (hit, lane) {
        (None, Some(track)) => {
            let period: Single = if track < periods.len() {
                periods[track]
            } else {
                Single { bits: ZERO }
            };
            Some(
                Command::AddClip {
                    track,
                    start: start.max(Single { bits: ZERO }),
                    length: period.max(Single { bits: ZERO }),
                },
            )
        },
        _ => None,
    }
}

/// `order` holds the numbers of `s`, the highest first.
pub open spec fn is_descending(s: Seq<usize>, order: Seq<usize>) -> bool {
    &&& order.to_multiset() == s.to_multiset()
    &&& forall|i: int, j: int| 0 <= i < j < order.len() ==> order[i] >= order[j]
}

fn descending(s: &Vec<usize>) -> (order: Vec<usize>)
    ensures
        is_descending(s@, order@),
{
    broadcast use vstd::seq_lib::group_to_multiset_ensures;

    let mut order: Vec<usize> = Vec::new();
    let mut i: usize = 0;
    proof {
        assert(s@.take(0) =~= order@);
    }
    while i < s.len()
        invariant
            i <= s@.len(),
            is_descending(s@.take(i as int), order@),
        decreases s@.len() - i,
    {
        let x: usize = s[i];
        let mut p: usize = order.len();
        while p > 0 && order[p - 1] < x
            invariant
                p <= order@.len(),
                forall|j: int| p <= j < order@.len() ==> order@[j] < x,
            decreases p,
        {
            p -= 1;
        }
        let ghost before = order@;
        order.insert(p, x);
        proof {
            assert(order@ == before.insert(p as int, x));
            vstd::seq_lib::to_multiset_insert(before, p as int, x);
            assert(s@.take(i + 1) =~= s@.take(i as int).push(x));
            assert(order@.to_multiset() =~= before.to_multiset().insert(x));
            s@.take(i as int).to_multiset_ensures();
            assert(s@.take(i + 1).to_multiset() =~= s@.take(i as int).to_multiset().insert(x));
            assert forall|a: int, b: int| 0 <= a < b < order@.len() implies order@[a]
                >= order@[b] by {
                let (c, d) = (
                    if a < p {
                        a
                    } else {
                        a - 1
                    },
                    if b < p {
                        b
                    } else {
                        b - 1
                    },
                );
                if a != p && b != p {
                    assert(before[c] >= before[d]);
                } else if b == p && p > 0 {
                    assert(before[a] >= before[p - 1]);
                }
            }
        }
        i += 1;
    }
    proof {
        assert(s@.take(i as int) =~= s@);
    }
    order
}

/// What is left of `s` when the entries numbered in `order` are removed one after the
/// other.
pub open spec fn after_removals<T>(s: Seq<T>, order: Seq<usize>) -> Seq<T>
    decreases order.len(),
{
    if order.len() == 0 {
        s
    } else {
        after_removals(s.remove(order[0] as int), order.drop_first())
    }
}

/// The first `n` entries of `s`, but those numbered in `gone`.
pub open spec fn left_over<T>(s: Seq<T>, gone: Seq<usize>, n: int) -> Seq<T>
    decreases n,
{
    if n <= 0 {
        Seq::empty()
    } else {
        let rest = left_over(s, gone, n - 1);
        if gone.contains((n - 1) as usize) {
            rest
        } else {
            rest.push(s[n - 1])
        }
    }
}

proof fn lemma_left_over_step<T>(s: Seq<T>, order: Seq<usize>, n: int)
    requires
        order.len() > 0,
        0 <= n <= s.len() <= usize::MAX,
        order[0] < s.len(),
        forall|i: int, j: int| 0 <= i < j < order.len() ==> order[i] > order[j],
    ensures
        n <= order[0] ==> left_over(s.remove(order[0] as int), order.drop_first(), n) == left_over(
            s,
            order,
            n,
        ),
        n > order[0] ==> left_over(s.remove(order[0] as int), order.drop_first(), n - 1)
            == left_over(s, order, n),
    decreases n,
{
    let i0 = order[0];
    let rest = order.drop_first();
    let t = s.remove(i0 as int);
    if n > 0 {
        lemma_left_over_step(s, order, n - 1);
        let k = (n - 1) as usize;
        if n - 1 < i0 {
            assert(order.contains(k) <==> rest.contains(k)) by {
                if order.contains(k) {
                    let j = choose|j: int| 0 <= j < order.len() && order[j] == k;
                    assert(rest[j - 1] == k);
                }
                if rest.contains(k) {
                    let j = choose|j: int| 0 <= j < rest.len() && rest[j] == k;
                    assert(order[j + 1] == k);
                }
            }
            assert(t[n - 1] == s[n - 1]);
        } else if n - 1 == i0 {
            assert(order.contains(k)) by {
                assert(order[0] == k);
            }
        } else {
            assert(!order.contains(k)) by {
                if order.contains(k) {
                    let j = choose|j: int| 0 <= j < order.len() && order[j] == k;
                    assert(order[0] >= order[j]);
                }
            }
            let m = (n - 2) as usize;
            assert(!rest.contains(m)) by {
                if rest.contains(m) {
                    let j = choose|j: int| 0 <= j < rest.len() && rest[j] == m;
                    assert(order[j + 1] == m);
                    assert(order[0] > order[j + 1]);
                }
            }
            assert(t[n - 2] == s[n - 1]);
        }
    }
}

/// Removing entries from the highest number down removes exactly those that were meant.
pub proof fn descending_removal_is_exact<T>(s: Seq<T>, order: Seq<usize>)
    requires
        s.len() <= usize::MAX,
        forall|i: int| 0 <= i < order.len() ==> (#[trigger] order[i]) < s.len(),
        forall|i: int, j: int| 0 <= i < j < order.len() ==> order[i] > order[j],
    ensures
        after_removals(s, order) == left_over(s, order, s.len() as int),
    decreases order.len(),
{
    if order.len() == 0 {
        lemma_nothing_gone(s, order, s.len() as int);
        assert(s.take(s.len() as int) =~= s);
    } else {
        let rest = order.drop_first();
        let t = s.remove(order[0] as int);
        assert forall|i: int| 0 <= i < rest.len() implies (#[trigger] rest[i]) < t.len() by {
            assert(order[0] > order[i + 1]);
        }
        assert forall|i: int, j: int| 0 <= i < j < rest.len() implies rest[i] > rest[j] by {
            assert(order[i + 1] > order[j + 1]);
        }
        descending_removal_is_exact(t, rest);
        lemma_left_over_step(s, order, s.len() as int);
    }
}

proof fn lemma_nothing_gone<T>(s: Seq<T>, gone: Seq<usize>, n: int)
    requires
        gone.len() == 0,
        0 <= n <= s.len(),
    ensures
        left_over(s, gone, n) == s.take(n),
    decreases n,
{
    if n > 0 {
        lemma_nothing_gone(s, gone, n - 1);
        assert(s.take(n) =~= s.take(n - 1).push(s[n - 1]));
    } else {
        assert(s.take(0) =~= Seq::empty());
    }
}

/// What it means that a drag goes on unchanged, and that nothing is under way.
pub proof fn what_unchanged_means(a: Arrangement, b: Arrangement)
    ensures
        same_drag(a, b) <==> a.drag == b.drag && a.grab == b.grab && a.seeking == b.seeking,
        is_idle(a) <==> a.clips@.len() == 0 && a.range is None && a.track is None && a.drag is None
            && a.grab.bits == 0 && !a.seeking,
{
}

/// The clip that is hit is under the pointer, and the topmost of those that are; nothing is
/// hit exactly if no clip is under the pointer.
pub proof fn the_topmost_clip_is_hit(
    clips: Seq<ClipHit>,
    p: Pointer,
    r: Option<(usize, DragKind)>,
    j: int,
)
    requires
        is_hit(clips, p, r),
        0 <= j < clips.len(),
        p.lane == Some(clips[j].track),
        clips[j].start.le(p.time),
        p.time.le(clips[j].end),
    ensures
        r matches Some((i, k)) && j <= i < clips.len() && p.lane == Some(clips[i as int].track)
            && clips[i as int].start.le(p.time) && p.time.le(clips[i as int].end) && k == grip(
            clips[i as int],
            p,
        ),
{
    assert(over(clips[j], p));
}

/// A moving clip is held back from the left by nothing else: the lower limit is zero, or the
/// end of a clip before it on its track that does not move along.
pub proof fn moved_clips_are_held_back_by_a_neighbour(
    clips: Seq<ClipSpan>,
    latest: Seq<Single>,
    sel: Seq<usize>,
    i: usize,
    end: Single,
    n: int,
)
    requires
        0 <= n <= clips.len() <= usize::MAX,
    ensures
        move_limits_of(clips, latest, sel, i, end, n).0 == (Single { bits: 0 }) || exists|k: int|
            0 <= k < n && (#[trigger] clips[k]).track == clips[i as int].track && clips[k].end.le(
                clips[i as int].start,
            ) && !movers(sel, i).contains(k as usize) && move_limits_of(
                clips,
                latest,
                sel,
                i,
                end,
                n,
            ).0 == clips[k].end,
        (Single { bits: 0 }).le(move_limits_of(clips, latest, sel, i, end, n).0),
    decreases n,
{
    if n > 0 {
        moved_clips_are_held_back_by_a_neighbour(clips, latest, sel, i, end, n - 1);
        let lo = move_limits_of(clips, latest, sel, i, end, n - 1).0;
        if !clips[n - 1].end.is_nan() {
            crate::single::the_larger_is_above_both(lo, clips[n - 1].end);
        }
    }
}

/// A clip is in the way of another that moves exactly if it starts on the same track no
/// earlier than that one ends, does not end before that one starts, and does not move along:
/// neither is it that one itself nor, if that one is selected, one of the selection.
pub proof fn only_what_comes_after_is_in_the_way(
    clips: Seq<ClipSpan>,
    sel: Seq<usize>,
    i: usize,
    end: Single,
    k: usize,
)
    ensures
        is_in_the_way(clips, sel, i, end, k as int) <==> clips[k as int].track == clips[i as int].track
            && end.le(clips[k as int].start) && !clips[k as int].end.le(clips[i as int].start) && (
        if sel.contains(i) {
            !sel.contains(k)
        } else {
            k != i
        }),
{
    assert(seq![i].contains(k) <==> k == i) by {
        assert(seq![i][0] == i);
    }
}

/// Nothing is hit where there is nothing: whatever is hit is under the pointer.
pub proof fn only_what_is_under_the_pointer_is_hit(
    clips: Seq<ClipHit>,
    p: Pointer,
    r: Option<(usize, DragKind)>,
)
    requires
        is_hit(clips, p, r),
    ensures
        r matches Some((i, k)) ==> i < clips.len() && p.lane == Some(clips[i as int].track)
            && clips[i as int].start.le(p.time) && p.time.le(clips[i as int].end),
        p.lane is None ==> r is None,
        clips.len() == 0 ==> r is None,
{
}

} // verus!
