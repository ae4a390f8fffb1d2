use vstd::prelude::*;
use vstd::string::StringExecFns;

verus! {

/// The outcome of reading one packet of samples from a media stream.
pub enum PacketRead<T> {
    /// The decoded samples of the packet.
    Samples(Vec<T>),
    /// The stream has no more packets.
    EndOfStream,
    /// The packet could not be read or decoded.
    Error,
}

/// Cuts a stream of sample packets into blocks of a fixed size. A block is
/// assembled by reading packets until enough samples are buffered, the
/// stream ends, or too many reads in a row fail; the last block is padded
/// with default samples, after which the assembler is exhausted.
pub struct BlockAssembler<T> {
    buffer_size: usize,
    read_retries: usize,
    buffer: Vec<T>,
    eof_flag: bool,
    error_count: usize,
    stream_ended: bool,
}

impl<T: Copy + Default> BlockAssembler<T> {
    pub closed spec fn spec_buffer(&self) -> Seq<T> {
        self.buffer@
    }

    pub closed spec fn spec_buffer_size(&self) -> usize {
        self.buffer_size
    }

    pub closed spec fn spec_read_retries(&self) -> usize {
        self.read_retries
    }

    pub closed spec fn spec_eof(&self) -> bool {
        self.eof_flag
    }

    pub closed spec fn spec_error_count(&self) -> usize {
        self.error_count
    }

    pub closed spec fn spec_stream_ended(&self) -> bool {
        self.stream_ended
    }

    /// An assembler of blocks of `buffer_size` samples that gives up after
    /// `read_retries` failed reads in a row.
    pub fn new(buffer_size: usize, read_retries: usize) -> (a: Self)
        ensures
            a.spec_buffer_size() == buffer_size,
            a.spec_read_retries() == read_retries,
            a.spec_buffer().len() == 0,
            !a.spec_eof(),
    {
        BlockAssembler {
            buffer_size,
            read_retries,
            buffer: Vec::new(),
            eof_flag: false,
            error_count: 0,
            stream_ended: false,
        }
    }

    /// Starts assembling a block; an exhausted assembler refuses.
    pub fn start_block(&mut self) -> (r: Result<(), String>)
        ensures
            r is Err <==> old(self).spec_eof(),
            r matches Err(e) ==> e@ == "EOF reached"@,
            r is Ok ==> final(self).spec_error_count() == 0 && !final(self).spec_stream_ended(),
            final(self).spec_buffer() == old(self).spec_buffer(),
            final(self).spec_buffer_size() == old(self).spec_buffer_size(),
            final(self).spec_read_retries() == old(self).spec_read_retries(),
            final(self).spec_eof() == old(self).spec_eof(),
    {
        if self.eof_flag {
            return Err(String::from_str("EOF reached"));
        }
        self.error_count = 0;
        self.stream_ended = false;
        Ok(())
    }

    /// Whether another packet must be read for the current block: fewer
    /// samples than a block are buffered, the stream has not ended, and the
    /// failed reads in a row are fewer than allowed.
    pub fn wants_packet(&self) -> (r: bool)
        ensures
            r == (self.spec_buffer().len() < self.spec_buffer_size() && self.spec_error_count()
                < self.spec_read_retries() && !self.spec_stream_ended()),
    {
        self.buffer.len() < self.buffer_size && self.error_count < self.read_retries
            && !self.stream_ended
    }

    /// Takes in the outcome of one read: samples are appended and clear the
    /// failure count, a failure is counted, the end of the stream stops the
    /// reading.
    pub fn on_packet(&mut self, packet: PacketRead<T>)
        requires
            old(self).spec_error_count() < old(self).spec_read_retries(),
        ensures
            final(self).spec_buffer_size() == old(self).spec_buffer_size(),
            final(self).spec_read_retries() == old(self).spec_read_retries(),
            final(self).spec_eof() == old(self).spec_eof(),
            packet matches PacketRead::Samples(data) ==> {
                &&& final(self).spec_buffer() == old(self).spec_buffer() + data@
                &&& final(self).spec_error_count() == 0
                &&& final(self).spec_stream_ended() == old(self).spec_stream_ended()
            },
            packet is EndOfStream ==> {
                &&& final(self).spec_buffer() == old(self).spec_buffer()
                &&& final(self).spec_error_count() == old(self).spec_error_count()
                &&& final(self).spec_stream_ended()
            },
            packet is Error ==> {
                &&& final(self).spec_buffer() == old(self).spec_buffer()
                &&& final(self).spec_error_count() == old(self).spec_error_count() + 1
                &&& final(self).spec_stream_ended() == old(self).spec_stream_ended()
            },
    {
        match packet {
            PacketRead::Error => self.error_count = self.error_count + 1,
            PacketRead::EndOfStream => self.stream_ended = true,
            PacketRead::Samples(mut data) => {
                self.buffer.append(&mut data);
                self.error_count = 0;
            },
        }
    }

    /// Ends the current block: an error where failures went beyond the
    /// allowed number; else the first `buffer_size` buffered samples; else,
    /// where fewer are buffered, all of them padded with default samples to
    /// a full block, after which the assembler is exhausted.
    pub fn finish_block(&mut self) -> (r: Result<Vec<T>, String>)
        ensures
            final(self).spec_buffer_size() == old(self).spec_buffer_size(),
            final(self).spec_read_retries() == old(self).spec_read_retries(),
            old(self).spec_error_count() > old(self).spec_read_retries() ==> {
                &&& r matches Err(e) && e@ == "Error in reading from audio file"@
                &&& *final(self) == *old(self)
            },
            old(self).spec_error_count() <= old(self).spec_read_retries()
                && old(self).spec_buffer().len() >= old(self).spec_buffer_size() ==> {
                &&& r matches Ok(block) && block@ == old(self).spec_buffer().take(
                    old(self).spec_buffer_size() as int,
                )
                &&& final(self).spec_buffer() == old(self).spec_buffer().skip(
                    old(self).spec_buffer_size() as int,
                )
                &&& final(self).spec_eof() == old(self).spec_eof()
            },
            old(self).spec_error_count() <= old(self).spec_read_retries()
                && old(self).spec_buffer().len() < old(self).spec_buffer_size() ==> {
                &&& r matches Ok(block) && block@.len() == old(self).spec_buffer_size() && block@.take(
                    old(self).spec_buffer().len() as int,
                ) == old(self).spec_buffer() && (forall|i: int|
                    old(self).spec_buffer().len() <= i < old(self).spec_buffer_size() ==> call_ensures(
                        T::default,
                        (),
                        #[trigger] block@[i],
                    ))
                &&& final(self).spec_buffer().len() == 0
                &&& final(self).spec_eof()
            },
    {
        if self.error_count > self.read_retries {
            Err(String::from_str("Error in reading from audio file"))
        } else if self.buffer.len() >= self.buffer_size {
            let rest = self.buffer.split_off(self.buffer_size);
            let mut block = rest;
            core::mem::swap(&mut block, &mut self.buffer);
            Ok(block)
        } else {
            let mut block: Vec<T> = Vec::new();
            core::mem::swap(&mut block, &mut self.buffer);
            let ghost start = block@;
            let mut i: usize = block.len();
            while i < self.buffer_size
                invariant
                    start.len() <= i <= self.buffer_size,
                    block@.len() == i,
                    block@.take(start.len() as int) == start,
                    forall|j: int|
                        start.len() <= j < i ==> call_ensures(T::default, (), #[trigger] block@[j]),
                decreases self.buffer_size - i,
            {
                let ghost before = block@;
                block.push(T::default());
                assert(block@.take(start.len() as int) =~= before.take(start.len() as int));
                i = i + 1;
            }
            self.eof_flag = true;
            Ok(block)
        }
    }
}

/// Cutting a full block off the buffered samples loses and repeats none:
/// the block followed by the samples kept for the next block are the
/// samples that were buffered, in order.
pub proof fn lemma_full_block_keeps_the_samples<T>(buffered: Seq<T>, block_size: nat)
    requires
        block_size <= buffered.len(),
    ensures
        buffered.take(block_size as int) + buffered.skip(block_size as int) == buffered,
        buffered.take(block_size as int).len() == block_size,
{
    assert(buffered.take(block_size as int) + buffered.skip(block_size as int) =~= buffered);
}

} // verus!
