//! The log as a file: one record to a line.
//!
//! Reading and writing the file, and turning a line into a record and back,
//! is the business of whoever owns the file. What is settled here is how
//! the content of the file falls into lines, how a batch of lines is laid
//! out for one write, and how a record and an envelope correspond.

use std::marker::PhantomData;
use vstd::prelude::*;
use crate::aggregate::Aggregate;
use crate::domain_event::DomainEvent;
use crate::formated_event::{Envelope, FormatedEvent};
use crate::types::{meta_entries, same_entries_same_meaning, MetaData};

verus! {

/// The byte that ends a line.
pub const NEWLINE: u8 = 10;

/// Whether a line can be stored as it is: it holds no line end of its own.
pub open spec fn fits_on_a_line(record: Seq<u8>) -> bool {
    forall|i: int| 0 <= i < record.len() ==> record[i] != NEWLINE
}

/// Reading `content` from the start: the lines that have been ended so far,
/// and the bytes after the last line end.
pub open spec fn scan(content: Seq<u8>) -> (Seq<Seq<u8>>, Seq<u8>)
    decreases content.len(),
{
    if content.len() == 0 {
        (Seq::empty(), Seq::empty())
    } else {
        let (ended, open) = scan(content.drop_last());
        if content.last() == NEWLINE {
            (ended.push(open), Seq::empty())
        } else {
            (ended, open.push(content.last()))
        }
    }
}

/// The lines of a file: the runs of bytes between line ends. The last line
/// need not be ended; nothing after the last line end is no line.
pub open spec fn records_of(content: Seq<u8>) -> Seq<Seq<u8>> {
    let (ended, open) = scan(content);
    if open.len() == 0 {
        ended
    } else {
        ended.push(open)
    }
}

/// The bytes of one write: every line followed by a line end.
pub open spec fn batch_of(records: Seq<Seq<u8>>) -> Seq<u8>
    decreases records.len(),
{
    if records.len() == 0 {
        Seq::empty()
    } else {
        batch_of(records.drop_last()) + records.last() + seq![NEWLINE]
    }
}

/// What each of a sequence of buffers holds.
pub open spec fn contents(records: Seq<Vec<u8>>) -> Seq<Seq<u8>> {
    records.map_values(|record: Vec<u8>| record@)
}

/// Reading on over bytes without a line end only lengthens the open line.
pub proof fn scan_over_line(content: Seq<u8>, record: Seq<u8>)
    requires
        fits_on_a_line(record),
    ensures
        scan(content + record) == (scan(content).0, scan(content).1 + record),
    decreases record.len(),
{
    if record.len() > 0 {
        let shorter = record.drop_last();
        assert((content + record).drop_last() =~= content + shorter);
        scan_over_line(content, shorter);
    }
}

/// Reading on over a batch ends the open line with the first line of the
/// batch and adds the others.
pub proof fn scan_over_batch(content: Seq<u8>, records: Seq<Seq<u8>>)
    requires
        scan(content).1.len() == 0,
        forall|i: int| 0 <= i < records.len() ==> fits_on_a_line(#[trigger] records[i]),
    ensures
        scan(content + batch_of(records)) == (scan(content).0 + records, Seq::<u8>::empty()),
    decreases records.len(),
{
    if records.len() > 0 {
        let before = records.drop_last();
        let line = records.last();
        let so_far = content + batch_of(before);
        scan_over_batch(content, before);
        scan_over_line(so_far, line);
        assert((content + batch_of(records)).drop_last() =~= so_far + line);
    }
}

/// A batch reads back as the lines it was laid out from.
pub proof fn batch_reads_back(records: Seq<Seq<u8>>)
    requires
        forall|i: int| 0 <= i < records.len() ==> fits_on_a_line(#[trigger] records[i]),
    ensures
        records_of(batch_of(records)) == records,
{
    scan_over_batch(Seq::<u8>::empty(), records);
}

/// Writing a batch behind a file whose last line is ended adds the lines
/// of the batch to the lines of the file, and changes none of them.
pub proof fn append_adds_records(content: Seq<u8>, records: Seq<Seq<u8>>)
    requires
        content.len() == 0 || content.last() == NEWLINE,
        forall|i: int| 0 <= i < records.len() ==> fits_on_a_line(#[trigger] records[i]),
    ensures
        records_of(content + batch_of(records)) == records_of(content) + records,
{
    scan_over_batch(content, records);
}

/// A batch of no lines is no bytes: writing it leaves a file as it is.
pub proof fn empty_batch_is_empty(content: Seq<u8>)
    ensures
        batch_of(Seq::<Seq<u8>>::empty()) == Seq::<u8>::empty(),
        content + batch_of(Seq::<Seq<u8>>::empty()) == content,
{
}

/// The lines of a file, each ended, are the file again: as it is where
/// its last line is ended, and with its last line ended where it is not.
pub proof fn records_make_the_content(content: Seq<u8>)
    ensures
        batch_of(scan(content).0) + scan(content).1 == content,
        batch_of(records_of(content)) == (if scan(content).1.len() == 0 {
            content
        } else {
            content.push(NEWLINE)
        }),
        scan(content).1.len() == 0 <==> (content.len() == 0 || content.last() == NEWLINE),
    decreases content.len(),
{
    let (ended, open) = scan(content);
    if content.len() > 0 {
        let shorter = content.drop_last();
        records_make_the_content(shorter);
        if content.last() == NEWLINE {
            assert(ended.drop_last() =~= scan(shorter).0);
        }
        assert(shorter.push(content.last()) =~= content);
    }
    if open.len() > 0 {
        assert(ended.push(open).drop_last() =~= ended);
    }
}

/// No line of a file holds a line end.
pub proof fn records_fit_on_a_line(content: Seq<u8>)
    ensures
        forall|i: int|
            0 <= i < records_of(content).len() ==> fits_on_a_line(#[trigger] records_of(content)[i]),
        forall|i: int| 0 <= i < scan(content).0.len() ==> fits_on_a_line(#[trigger] scan(content).0[i]),
        fits_on_a_line(scan(content).1),
    decreases content.len(),
{
    if content.len() > 0 {
        records_fit_on_a_line(content.drop_last());
    }
}

/// Whether a line can be stored as it is.
pub fn is_one_line(record: &[u8]) -> (fits: bool)
    ensures
        fits == fits_on_a_line(record@),
{
    let mut i: usize = 0;
    while i < record.len()
        invariant
            i <= record.len(),
            forall|j: int| 0 <= j < i ==> record@[j] != NEWLINE,
        decreases record.len() - i,
    {
        if record[i] == NEWLINE {
            return false;
        }
        i += 1;
    }
    true
}

/// Cuts the content of a file into its lines.
pub fn split_records(content: &[u8]) -> (records: Vec<Vec<u8>>)
    ensures
        contents(records@) == records_of(content@),
{
    let mut records: Vec<Vec<u8>> = Vec::new();
    let mut open: Vec<u8> = Vec::new();
    let mut i: usize = 0;
    while i < content.len()
        invariant
            i <= content.len(),
            (contents(records@), open@) == scan(content@.take(i as int)),
        decreases content.len() - i,
    {
        let byte = content[i];
        assert(content@.take(i + 1).drop_last() =~= content@.take(i as int));
        if byte == NEWLINE {
            records.push(open);
            open = Vec::new();
        } else {
            open.push(byte);
        }
        i += 1;
    }
    assert(content@.take(content.len() as int) =~= content@);
    if open.len() > 0 {
        records.push(open);
    }
    records
}

/// Lays a batch of lines out for one write.
pub fn join_records(records: &Vec<Vec<u8>>) -> (batch: Vec<u8>)
    ensures
        batch@ == batch_of(contents(records@)),
{
    let mut batch: Vec<u8> = Vec::new();
    let mut i: usize = 0;
    while i < records.len()
        invariant
            i <= records.len(),
            batch@ == batch_of(contents(records@).take(i as int)),
        decreases records.len() - i,
    {
        let record = &records[i];
        let ghost before = batch@;
        let mut j: usize = 0;
        while j < record.len()
            invariant
                j <= record.len(),
                batch@ == before + record@.take(j as int),
            decreases record.len() - j,
        {
            batch.push(record[j]);
            j += 1;
        }
        batch.push(NEWLINE);
        assert(contents(records@).take(i + 1).drop_last() =~= contents(records@).take(i as int));
        i += 1;
    }
    assert(contents(records@).take(records.len() as int) =~= contents(records@));
    batch
}

/// One record of the log as it stands in the file: an envelope whose event
/// is still text.
#[derive(Debug)]
pub struct FileData {
    pub aggregate_id: String,
    pub aggregate_type: String,
    pub version: usize,
    pub payload: String,
    pub meta: MetaData,
    pub created_at: String,
}

impl FileData {
    /// The record of `event`, given the text `payload` that its event is
    /// written as.
    pub fn from_event<A: Aggregate, E: DomainEvent<A>>(
        event: &FormatedEvent<A, E>,
        payload: String,
    ) -> (data: FileData)
        ensures
            data.aggregate_id@ == event@.aggregate_id,
            data.aggregate_type@ == event@.aggregate_type,
            data.version == event@.version,
            data.payload == payload,
            meta_entries(data.meta) == event@.meta,
            data.created_at@ == event@.created_at,
    {
        let meta = event.meta.clone();
        proof {
            same_entries_same_meaning(event.meta, meta);
        }
        FileData {
            aggregate_id: event.aggregate_id.clone(),
            aggregate_type: event.aggregate_type.clone(),
            version: event.version,
            payload,
            meta,
            created_at: event.created_at.clone(),
        }
    }

    /// The envelope of this record, given the event `payload` that its text
    /// stands for. The envelope keeps the time the record was made at.
    pub fn into_event<A: Aggregate, E: DomainEvent<A>>(self, payload: E) -> (event: FormatedEvent<
        A,
        E,
    >)
        ensures
            event@ == (Envelope {
                aggregate_id: self.aggregate_id@,
                aggregate_type: self.aggregate_type@,
                version: self.version as nat,
                payload,
                meta: meta_entries(self.meta),
                created_at: self.created_at@,
            }),
    {
        let created_at = self.created_at;
        FormatedEvent::new(
            self.aggregate_id,
            self.aggregate_type,
            self.version,
            payload,
            self.meta,
            Some(created_at.as_str()),
        )
    }
}

/// The place of a log that is kept in a file.
///
/// NOTE: a log in a file is read from end to end for every answer. It is
/// meant for development, not for production.
pub struct FileEventStore<A: Aggregate, E: DomainEvent<A>> {
    path: String,
    _a: PhantomData<A>,
    _e: PhantomData<E>,
}

impl<A: Aggregate, E: DomainEvent<A>> FileEventStore<A, E> {
    /// Where the file is.
    pub closed spec fn spec_path(&self) -> Seq<char> {
        self.path@
    }

    pub fn new(path: &str) -> (store: FileEventStore<A, E>)
        ensures
            store.spec_path() == path@,
    {
        FileEventStore { path: path.to_owned(), _a: PhantomData, _e: PhantomData }
    }

    pub fn path(&self) -> (path: &str)
        ensures
            path@ == self.spec_path(),
    {
        self.path.as_str()
    }
}

impl<A: Aggregate, E: DomainEvent<A>> Clone for FileEventStore<A, E> {
    fn clone(&self) -> (copy: FileEventStore<A, E>)
        ensures
            copy.spec_path() == self.spec_path(),
    {
        FileEventStore { path: self.path.clone(), _a: PhantomData, _e: PhantomData }
    }
}

} // verus!
