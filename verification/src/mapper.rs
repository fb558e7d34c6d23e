//! The record mapper: one batch of fetched records, each tagged with the batch's variant.
use crate::mode::Mode;
use vstd::prelude::*;

verus! {

/// What one fetch returns: container summaries or image summaries, never a
/// mix. The record types `C` and `I` are the daemon client's; nothing here
/// looks inside a record.
#[derive(Debug, PartialEq, Eq)]
pub enum RawRecords<C, I> {
    Containers(Vec<C>),
    Images(Vec<I>),
}

/// One record, tagged as a container or an image, ready to be serialized.
#[derive(Debug, PartialEq, Eq)]
pub enum NormalizedRecord<C, I> {
    Container(C),
    Image(I),
}

impl<C, I> RawRecords<C, I> {
    /// The listing that the batch belongs to.
    pub open spec fn mode(self) -> Mode {
        match self {
            RawRecords::Containers(_) => Mode::Containers,
            RawRecords::Images(_) => Mode::Images,
        }
    }

    /// The number of records in the batch.
    pub open spec fn count(self) -> nat {
        match self {
            RawRecords::Containers(records) => records@.len(),
            RawRecords::Images(records) => records@.len(),
        }
    }

    /// The listing that the batch belongs to.
    pub fn listing(&self) -> (mode: Mode)
        ensures
            mode == self.mode(),
    {
        match self {
            RawRecords::Containers(_) => Mode::Containers,
            RawRecords::Images(_) => Mode::Images,
        }
    }
}

/// The batch as tagged records: as many as were fetched, in fetch order, each
/// holding the record that stood at its index.
pub open spec fn normalized<C, I>(raw: RawRecords<C, I>) -> Seq<NormalizedRecord<C, I>> {
    match raw {
        RawRecords::Containers(records) => Seq::new(
            records@.len(),
            |i: int| NormalizedRecord::Container(records@[i]),
        ),
        RawRecords::Images(records) => Seq::new(
            records@.len(),
            |i: int| NormalizedRecord::Image(records@[i]),
        ),
    }
}

/// Tags every record of the batch with the batch's variant. No record is
/// dropped, duplicated or moved.
pub fn map_all<C, I>(raw: RawRecords<C, I>) -> (records: Vec<NormalizedRecord<C, I>>)
    ensures
        records@ == normalized(raw),
        records@.len() == raw.count(),
{
    let mut records: Vec<NormalizedRecord<C, I>> = Vec::new();
    match raw {
        RawRecords::Containers(containers) => {
            let ghost all = containers@;
            for container in it: containers.into_iter()
                invariant
                    it.seq() == all,
                    records@.len() == it.index(),
                    forall|i: int|
                        0 <= i < records@.len() ==> records@[i] == NormalizedRecord::<
                            C,
                            I,
                        >::Container(all[i]),
            {
                records.push(NormalizedRecord::Container(container));
            }
        },
        RawRecords::Images(images) => {
            let ghost all = images@;
            for image in it: images.into_iter()
                invariant
                    it.seq() == all,
                    records@.len() == it.index(),
                    forall|i: int|
                        0 <= i < records@.len() ==> records@[i] == NormalizedRecord::<
                            C,
                            I,
                        >::Image(all[i]),
            {
                records.push(NormalizedRecord::Image(image));
            }
        },
    }
    records
}

} // verus!
