use vstd::prelude::*;
use crate::error::ScanError;
use crate::frame::FrameHeader;

verus! {

/// The container format that an application-data segment names.
#[derive(Clone, Copy, Debug, PartialEq, Eq, Structural)]
pub enum ContainerId {
    Jfif,
    Exif,
    Unknown,
}

/// The container that an application-data segment of code `kind` names.
pub open spec fn container_of(kind: u8) -> ContainerId {
    if kind == 0xE0 {
        ContainerId::Jfif
    } else if kind == 0xE1 {
        ContainerId::Exif
    } else {
        ContainerId::Unknown
    }
}

impl ContainerId {
    /// The container that an application-data segment of code `kind` names.
    pub fn from_kind(kind: u8) -> (r: ContainerId)
        ensures
            r == container_of(kind),
    {
        if kind == 0xE0 {
            ContainerId::Jfif
        } else if kind == 0xE1 {
            ContainerId::Exif
        } else {
            ContainerId::Unknown
        }
    }

    /// The name printed for the container.
    pub fn label(&self) -> (r: &'static str)
        ensures
            *self == ContainerId::Jfif ==> r@ == "JFIF"@,
            *self == ContainerId::Exif ==> r@ == "EXIF"@,
            *self == ContainerId::Unknown ==> r@ == "UNKNOWN"@,
    {
        match self {
            ContainerId::Jfif => "JFIF",
            ContainerId::Exif => "EXIF",
            ContainerId::Unknown => "UNKNOWN",
        }
    }
}

/// What a successful scan reports.
#[derive(Clone, Copy, Debug, PartialEq, Eq, Structural)]
pub struct Report {
    pub identifier: ContainerId,
    pub selected_frame: FrameHeader,
}

/// The index of the frame header reported among `frames`: the last one of
/// the highest marker kind, as a stable ascending sort by kind puts last.
pub open spec fn selected_index(frames: Seq<(u8, FrameHeader)>) -> int
    decreases frames.len(),
{
    if frames.len() <= 1 {
        0
    } else {
        let m = selected_index(frames.drop_last());
        if frames.last().0 >= frames[m].0 {
            frames.len() - 1
        } else {
            m
        }
    }
}

/// The report, or the error, for the identifier and frame headers that a
/// scan collected.
pub open spec fn aggregate_spec(identifier: ContainerId, frames: Seq<(u8, FrameHeader)>) -> Result<
    Report,
    ScanError,
> {
    if frames.len() == 0 {
        Err(ScanError::NoFrameHeader)
    } else {
        Ok(Report { identifier, selected_frame: frames[selected_index(frames)].1 })
    }
}

/// `selected_index` names an entry of the highest kind, after which only
/// lower kinds follow.
pub proof fn lemma_selected_index(frames: Seq<(u8, FrameHeader)>)
    requires
        frames.len() > 0,
    ensures
        0 <= selected_index(frames) < frames.len(),
        forall|j: int| 0 <= j < frames.len() ==> #[trigger] frames[j].0 <= frames[selected_index(frames)].0,
        forall|j: int|
            selected_index(frames) < j < frames.len() ==> #[trigger] frames[j].0 < frames[selected_index(frames)].0,
    decreases frames.len(),
{
    if frames.len() > 1 {
        let p = frames.drop_last();
        lemma_selected_index(p);
        assert forall|j: int| 0 <= j < p.len() implies #[trigger] frames[j] == p[j] by {}
    }
}

/// Reconciles the frame headers that a scan collected into one report: the
/// last header of the highest marker kind is selected.
pub fn aggregate(identifier: ContainerId, frames: &Vec<(u8, FrameHeader)>) -> (r: Result<
    Report,
    ScanError,
>)
    ensures
        r == aggregate_spec(identifier, frames@),
        frames@.len() == 0 <==> r == Err::<Report, ScanError>(ScanError::NoFrameHeader),
        r is Ok ==> exists|m: int|
            {
                &&& 0 <= m < frames@.len()
                &&& r->Ok_0.selected_frame == frames@[m].1
                &&& r->Ok_0.identifier == identifier
                &&& forall|j: int| 0 <= j < frames@.len() ==> #[trigger] frames@[j].0 <= frames@[m].0
                &&& forall|j: int| m < j < frames@.len() ==> #[trigger] frames@[j].0 < frames@[m].0
            },
{
    if frames.len() == 0 {
        return Err(ScanError::NoFrameHeader);
    }
    let mut best: usize = 0;
    let mut i: usize = 1;
    while i < frames.len()
        invariant
            1 <= i <= frames@.len(),
            best as int == selected_index(frames@.subrange(0, i as int)),
        decreases frames@.len() - i,
    {
        let ghost p = frames@.subrange(0, i as int);
        let ghost q = frames@.subrange(0, i + 1);
        assert(q.drop_last() =~= p);
        proof {
            lemma_selected_index(p);
        }
        if frames[i].0 >= frames[best].0 {
            best = i;
        }
        i = i + 1;
    }
    assert(frames@.subrange(0, frames@.len() as int) =~= frames@);
    proof {
        lemma_selected_index(frames@);
    }
    Ok(Report { identifier, selected_frame: frames[best].1 })
}

} // verus!
