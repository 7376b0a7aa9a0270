//! Executable images: the loadable segments of an object file and its entry point.

use crate::mem::{splice, Memory};
use object::{Object, ObjectSegment};
use vstd::prelude::*;

verus! {

/// A loadable segment: the address it is loaded at, and its bytes.
pub struct Segment {
    pub address: u64,
    pub data: Vec<u8>,
}

impl View for Segment {
    type V = (u64, Seq<u8>);

    open spec fn view(&self) -> (u64, Seq<u8>) {
        (self.address, self.data@)
    }
}

/// An executable image: the entry point and the segments, in the order of the file.
pub struct Image {
    pub entry: u64,
    pub segments: Vec<Segment>,
}

impl View for Image {
    type V = (u64, Seq<(u64, Seq<u8>)>);

    open spec fn view(&self) -> (u64, Seq<(u64, Seq<u8>)>) {
        (self.entry, Seq::new(self.segments@.len(), |i: int| self.segments@[i]@))
    }
}

/// Why an image could not be loaded.
#[derive(Clone, Copy, Debug, PartialEq, Eq, Structural)]
pub enum LoadError {
    /// The bytes are not an object file, or one of its segments is cut short.
    Malformed,
    /// A segment does not lie inside memory.
    OutOfRange,
}

/// The entry point and the loadable segments that the `object` crate reads from the bytes
/// of an object file: `None` where it rejects the bytes or the contents of a segment.
pub uninterp spec fn object_image(data: Seq<u8>) -> Option<(u64, Seq<(u64, Seq<u8>)>)>;

/// Parses an object file with `object::File::parse` and copies out of it the entry point
/// (`Object::entry`) and, for each loadable segment that `Object::segments` yields, its
/// address (`ObjectSegment::address`) and its file contents (`ObjectSegment::data`). The
/// result is a function of the bytes, named `object_image`; nothing else is claimed of it.
#[verifier::external_body]
fn parse_object(data: &[u8]) -> (r: Option<Image>)
    ensures
        match r {
            Some(image) => object_image(data@) == Some(image@),
            None => object_image(data@) is None,
        },
{
    let file = object::File::parse(data).ok()?;
    let mut segments = Vec::new();
    for segment in file.segments() {
        segments.push(Segment { address: segment.address(), data: segment.data().ok()?.to_vec() });
    }
    Some(Image { entry: file.entry(), segments })
}

/// Whether every segment lies inside a memory of `size` bytes.
pub open spec fn segments_fit(size: nat, segments: Seq<(u64, Seq<u8>)>) -> bool {
    forall|i: int|
        0 <= i < segments.len() ==> (#[trigger] segments[i]).0 + segments[i].1.len() <= size
}

/// The memory after the segments have been copied into it, one after the other.
pub open spec fn load_segments(m: Seq<u8>, segments: Seq<(u64, Seq<u8>)>) -> Seq<u8>
    decreases segments.len(),
{
    if segments.len() == 0 {
        m
    } else {
        splice(
            load_segments(m, segments.drop_last()),
            segments.last().0 as int,
            segments.last().1,
        )
    }
}

/// Loading keeps the size of the memory.
pub proof fn lemma_load_segments_len(m: Seq<u8>, segments: Seq<(u64, Seq<u8>)>)
    ensures
        load_segments(m, segments).len() == m.len(),
    decreases segments.len(),
{
    if segments.len() > 0 {
        lemma_load_segments_len(m, segments.drop_last());
    }
}

impl Image {
    /// Whether every segment of the image lies inside a memory of `size` bytes.
    pub fn fits(&self, size: usize) -> (r: bool)
        ensures
            r == segments_fit(size as nat, self@.1),
    {
        let n = self.segments.len();
        let mut i: usize = 0;
        while i < n
            invariant
                n == self.segments@.len(),
                i <= n,
                segments_fit(size as nat, self@.1.take(i as int)),
            decreases n - i,
        {
            let segment = &self.segments[i];
            let len = segment.data.len();
            if segment.address > size as u64 || size as u64 - segment.address < len as u64 {
                assert(self@.1[i as int] == segment@);
                return false;
            }
            assert forall|j: int| 0 <= j < i + 1 implies (#[trigger] self@.1.take(i + 1)[j]).0
                + self@.1.take(i + 1)[j].1.len() <= size by {
                if j < i {
                    assert(self@.1.take(i as int)[j] == self@.1[j]);
                }
            }
            i = i + 1;
        }
        assert(self@.1.take(n as int) =~= self@.1);
        true
    }
}

impl Memory {
    /// Copies the segments of `image` into memory and returns the entry point, cut to 32
    /// bits. Where a segment does not lie inside memory, nothing is copied.
    pub fn load_image(&mut self, image: &Image) -> (r: Result<u32, LoadError>)
        ensures
            segments_fit(old(self)@.len(), image@.1) ==> r == Ok::<u32, LoadError>(
                (image@.0 % 0x1_0000_0000) as u32,
            ) && final(self)@ == load_segments(old(self)@, image@.1),
            !segments_fit(old(self)@.len(), image@.1) ==> r == Err::<u32, LoadError>(
                LoadError::OutOfRange,
            ) && final(self)@ == old(self)@,
    {
        let size = self.size();
        if !image.fits(size) {
            return Err(LoadError::OutOfRange);
        }
        let n = image.segments.len();
        let mut i: usize = 0;
        assert(image@.1.take(0) =~= Seq::<(u64, Seq<u8>)>::empty());
        while i < n
            invariant
                n == image.segments@.len(),
                i <= n,
                size == old(self)@.len(),
                segments_fit(size as nat, image@.1),
                self@ == load_segments(old(self)@, image@.1.take(i as int)),
            decreases n - i,
        {
            let segment = &image.segments[i];
            proof {
                assert(image@.1[i as int] == segment@);
                lemma_load_segments_len(old(self)@, image@.1.take(i as int));
                assert(image@.1.take(i + 1).drop_last() =~= image@.1.take(i as int));
            }
            self.write(segment.address as usize, segment.data.as_slice());
            i = i + 1;
        }
        assert(image@.1.take(n as int) =~= image@.1);
        proof {
            lemma_entry(image.entry);
        }
        Ok(image.entry as u32)
    }

    /// Loads the object file that `data` holds: copies its loadable segments into memory and
    /// returns its entry point, cut to 32 bits. Where the bytes are no object file, or a
    /// segment does not lie inside memory, nothing is copied.
    pub fn load_elf(&mut self, data: &[u8]) -> (r: Result<u32, LoadError>)
        ensures
            match object_image(data@) {
                None => r == Err::<u32, LoadError>(LoadError::Malformed)
                    && final(self)@ == old(self)@,
                Some((entry, segments)) => if segments_fit(old(self)@.len(), segments) {
                    r == Ok::<u32, LoadError>((entry % 0x1_0000_0000) as u32) && final(self)@
                        == load_segments(old(self)@, segments)
                } else {
                    r == Err::<u32, LoadError>(LoadError::OutOfRange) && final(self)@ == old(self)@
                },
            },
    {
        match parse_object(data) {
            Some(image) => self.load_image(&image),
            None => Err(LoadError::Malformed),
        }
    }
}

/// The low 32 bits of an entry point, as a truncating cast computes them.
proof fn lemma_entry(entry: u64)
    ensures
        entry as u32 == (entry % 0x1_0000_0000) as u32,
{
    assert(entry as u32 == (entry % 0x1_0000_0000) as u32) by (bit_vector);
}

} // verus!
