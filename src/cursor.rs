use vstd::prelude::*;

verus! {

/// Size in bytes of one device sector.
pub const SECTOR_SIZE: usize = 512;

/// A byte position on a sector device, kept as a sector index and an
/// offset inside that sector.
pub struct DiskCursor {
    sector: u64,
    offset: usize,
}

/// Errors handed to the byte-stream user of the cursor.
#[derive(Debug, Clone, Copy, PartialEq, Eq, Structural)]
pub enum DiskCursorIoError {
    /// A read made no progress: the end of the stream.
    UnexpectedEof,
    /// A write made no progress.
    WriteZero,
    /// The requested operation is not offered by the cursor.
    NotSupported,
}

impl DiskCursorIoError {
    /// No cursor error means "interrupted, try again".
    pub fn is_interrupted(&self) -> (r: bool)
        ensures
            !r,
    {
        false
    }

    /// The error for a read that made no progress.
    pub fn new_unexpected_eof_error() -> (r: DiskCursorIoError)
        ensures
            r == DiskCursorIoError::UnexpectedEof,
    {
        DiskCursorIoError::UnexpectedEof
    }

    /// The error for a write that made no progress.
    pub fn new_write_zero_error() -> (r: DiskCursorIoError)
        ensures
            r == DiskCursorIoError::WriteZero,
    {
        DiskCursorIoError::WriteZero
    }
}

/// Where a seek is measured from, and by how much.
#[derive(Debug, Clone, Copy, PartialEq, Eq, Structural)]
pub enum SeekPos {
    /// This many bytes from the start of the device.
    Start(u64),
    /// This many bytes from the end of the device.
    End(i64),
    /// This many bytes forward (or back, when negative) from the cursor.
    Current(i64),
}

/// What the device must do next for a write.
#[derive(Debug, PartialEq, Eq)]
pub enum WriteStep {
    /// The current contents of `sector` are needed before anything is written.
    ReadSector { sector: u64 },
    /// Store `data` (a whole sector) as `sector`; `written` bytes of the
    /// caller's buffer went into it.
    WriteSector { sector: u64, data: Vec<u8>, written: usize },
}

/// How many bytes one transfer of a `len`-byte buffer moves when it starts
/// at `offset` inside a sector: never past the end of that sector.
pub open spec fn window_len(offset: int, len: int) -> int {
    if len < 512 - offset {
        len
    } else {
        512 - offset
    }
}

/// The bytes a `len`-byte read starting at `offset` takes from `sector`.
pub open spec fn read_window(sector: Seq<u8>, offset: int, len: int) -> Seq<u8> {
    sector.subrange(offset, offset + window_len(offset, len))
}

/// `current` with the leading bytes of `bytes` laid over it from `offset`
/// up to the end of the window.
pub open spec fn merged_sector(current: Seq<u8>, offset: int, bytes: Seq<u8>) -> Seq<u8> {
    Seq::new(
        512,
        |i: int|
            if offset <= i < offset + window_len(offset, bytes.len() as int) {
                bytes[i - offset]
            } else {
                current[i]
            },
    )
}

/// A whole sector written from the caller's buffer needs no prior read.
pub open spec fn is_direct_write(offset: int, len: int) -> bool {
    offset == 0 && len >= 512
}

/// The absolute byte position of `(sector, offset)`.
pub open spec fn position_of(sector: u64, offset: usize) -> int {
    sector * 512 + offset
}

impl DiskCursor {
    pub closed spec fn sector_spec(&self) -> u64 {
        self.sector
    }

    pub closed spec fn offset_spec(&self) -> usize {
        self.offset
    }

    /// The absolute byte position of the cursor.
    pub open spec fn pos(&self) -> int {
        position_of(self.sector_spec(), self.offset_spec())
    }

    /// The offset stays inside its sector and the position is addressable.
    pub open spec fn wf(&self) -> bool {
        &&& self.offset_spec() < 512
        &&& self.pos() <= usize::MAX
    }

    /// A cursor at byte 0.
    pub fn new() -> (r: DiskCursor)
        ensures
            r.wf(),
            r.pos() == 0,
            r.sector_spec() == 0,
            r.offset_spec() == 0,
    {
        DiskCursor { sector: 0, offset: 0 }
    }

    /// The index of the sector the cursor is in.
    pub fn sector(&self) -> (r: u64)
        ensures
            r == self.sector_spec(),
    {
        self.sector
    }

    /// The offset of the cursor inside its sector.
    pub fn offset(&self) -> (r: usize)
        ensures
            r == self.offset_spec(),
    {
        self.offset
    }

    /// The absolute byte position.
    pub fn get_position(&self) -> (r: usize)
        requires
            self.wf(),
        ensures
            r as int == self.pos(),
    {
        proof {
            assert(self.sector * 512 <= usize::MAX) by (nonlinear_arith)
                requires
                    self.sector * 512 + self.offset <= usize::MAX,
                    self.offset >= 0,
            ;
        }
        (self.sector * 512) as usize + self.offset
    }

    /// Moves the cursor to the absolute byte `position`.
    pub fn set_position(&mut self, position: usize)
        ensures
            final(self).wf(),
            final(self).pos() == position as int,
            final(self).sector_spec() == position / 512,
            final(self).offset_spec() == position % 512,
    {
        self.sector = (position / 512) as u64;
        self.offset = position % 512;
    }

    /// Advances the cursor by `amount` bytes.
    pub fn move_cursor(&mut self, amount: usize)
        requires
            old(self).wf(),
            old(self).pos() + amount <= usize::MAX,
        ensures
            final(self).wf(),
            final(self).pos() == old(self).pos() + amount,
    {
        let p = self.get_position();
        self.set_position(p + amount)
    }

    /// The byte just past the cursor's sector is still addressable.
    pub open spec fn sector_end_ok(&self) -> bool {
        (self.sector_spec() + 1) * 512 <= usize::MAX
    }

    /// One read of up to `buf_len` bytes, given `sector_data`, the current
    /// contents of the cursor's sector. Returns the bytes read, which never
    /// cross the end of the sector, and advances past them.
    pub fn read(&mut self, sector_data: &[u8], buf_len: usize) -> (r: Vec<u8>)
        requires
            old(self).wf(),
            old(self).sector_end_ok(),
            sector_data@.len() == 512,
        ensures
            r@ == read_window(sector_data@, old(self).offset_spec() as int, buf_len as int),
            r@.len() == window_len(old(self).offset_spec() as int, buf_len as int),
            final(self).wf(),
            final(self).pos() == old(self).pos() + r@.len(),
    {
        let start = self.offset;
        let n: usize = if buf_len < 512 - start {
            buf_len
        } else {
            512 - start
        };
        let mut out: Vec<u8> = Vec::with_capacity(n);
        let mut i: usize = 0;
        while i < n
            invariant
                start < 512,
                n <= 512 - start,
                i <= n,
                sector_data@.len() == 512,
                out@ == sector_data@.subrange(start as int, start + i),
            decreases n - i,
        {
            out.push(sector_data[start + i]);
            i = i + 1;
            proof {
                assert(out@ =~= sector_data@.subrange(start as int, start + i));
            }
        }
        proof {
            assert(self.pos() + n <= (self.sector + 1) * 512) by (nonlinear_arith)
                requires
                    self.pos() == self.sector * 512 + self.offset,
                    n <= 512 - self.offset,
            ;
        }
        self.move_cursor(n);
        out
    }

    /// One write of up to a sector's worth of `buf`. A whole sector at an
    /// aligned position is written directly. Otherwise the current contents
    /// of the sector are needed: with `current` absent the step asks for
    /// them and the cursor stays; with `current` given, the window is
    /// merged into them, the whole sector is handed back for writing, and
    /// the cursor advances past the bytes taken from `buf`.
    pub fn write(&mut self, buf: &[u8], current: Option<&[u8]>) -> (r: WriteStep)
        requires
            old(self).wf(),
            old(self).sector_end_ok(),
            current matches Some(c) ==> c@.len() == 512,
        ensures
            final(self).wf(),
            is_direct_write(old(self).offset_spec() as int, buf@.len() as int) ==> {
                &&& r matches WriteStep::WriteSector { sector, data, written } && sector
                    == old(self).sector_spec() && data@ == buf@.subrange(0, 512) && written
                    == 512
                &&& final(self).pos() == old(self).pos() + 512
            },
            !is_direct_write(old(self).offset_spec() as int, buf@.len() as int) && current is None
                ==> {
                &&& r == (WriteStep::ReadSector { sector: old(self).sector_spec() })
                &&& *final(self) == *old(self)
            },
            current matches Some(c) ==> (!is_direct_write(
                old(self).offset_spec() as int,
                buf@.len() as int,
            ) ==> {
                &&& r matches WriteStep::WriteSector { sector, data, written } && sector
                    == old(self).sector_spec() && data@ == merged_sector(
                    c@,
                    old(self).offset_spec() as int,
                    buf@,
                ) && written == window_len(old(self).offset_spec() as int, buf@.len() as int)
                &&& final(self).pos() == old(self).pos() + window_len(
                    old(self).offset_spec() as int,
                    buf@.len() as int,
                )
            }),
    {
        proof {
            assert(self.pos() + 512 - self.offset <= (self.sector + 1) * 512) by (nonlinear_arith)
                requires
                    self.pos() == self.sector * 512 + self.offset,
            ;
        }
        if self.offset == 0 && buf.len() >= 512 {
            let mut data: Vec<u8> = Vec::with_capacity(512);
            let mut i: usize = 0;
            while i < 512
                invariant
                    i <= 512,
                    buf@.len() >= 512,
                    data@ == buf@.subrange(0, i as int),
                decreases 512 - i,
            {
                data.push(buf[i]);
                i = i + 1;
                proof {
                    assert(data@ =~= buf@.subrange(0, i as int));
                }
            }
            let sector = self.sector;
            self.move_cursor(512);
            return WriteStep::WriteSector { sector, data, written: 512 };
        }
        match current {
            None => WriteStep::ReadSector { sector: self.sector },
            Some(cur) => {
                let start = self.offset;
                let n: usize = if buf.len() < 512 - start {
                    buf.len()
                } else {
                    512 - start
                };
                let ghost merged = merged_sector(cur@, start as int, buf@);
                let mut data: Vec<u8> = Vec::with_capacity(512);
                let mut i: usize = 0;
                while i < 512
                    invariant
                        i <= 512,
                        start < 512,
                        n == window_len(start as int, buf@.len() as int),
                        cur@.len() == 512,
                        merged == merged_sector(cur@, start as int, buf@),
                        data@ == merged.subrange(0, i as int),
                    decreases 512 - i,
                {
                    let b = if start <= i && i < start + n {
                        buf[i - start]
                    } else {
                        cur[i]
                    };
                    data.push(b);
                    i = i + 1;
                    proof {
                        assert(data@ =~= merged.subrange(0, i as int));
                    }
                }
                proof {
                    assert(data@ =~= merged);
                }
                let sector = self.sector;
                self.move_cursor(n);
                WriteStep::WriteSector { sector, data, written: n }
            },
        }
    }

    /// Moves the cursor as `pos` says and returns the new position. A seek
    /// from the end is not offered, since the cursor does not know the size
    /// of the device.
    pub fn seek(&mut self, pos: SeekPos) -> (r: Result<u64, DiskCursorIoError>)
        requires
            old(self).wf(),
            pos matches SeekPos::Start(i) ==> i <= usize::MAX,
            pos matches SeekPos::Current(d) ==> 0 <= old(self).pos() + d <= usize::MAX,
        ensures
            pos matches SeekPos::Start(i) ==> r == Ok::<u64, DiskCursorIoError>(i)
                && final(self).wf() && final(self).pos() == i,
            pos matches SeekPos::Current(d) ==> r == Ok::<u64, DiskCursorIoError>(
                (old(self).pos() + d) as u64,
            ) && final(self).wf() && final(self).pos() == old(self).pos() + d,
            pos is End ==> r == Err::<u64, DiskCursorIoError>(DiskCursorIoError::NotSupported)
                && *final(self) == *old(self),
    {
        match pos {
            SeekPos::Start(i) => {
                self.set_position(i as usize);
                Ok(i)
            },
            SeekPos::End(_) => Err(DiskCursorIoError::NotSupported),
            SeekPos::Current(d) => {
                let p = self.get_position();
                let new_pos = (p as i128 + d as i128) as usize;
                self.set_position(new_pos);
                Ok(new_pos as u64)
            },
        }
    }

    /// Nothing is buffered, so there is nothing to flush.
    pub fn flush(&mut self) -> (r: Result<(), DiskCursorIoError>)
        ensures
            r is Ok,
            *final(self) == *old(self),
    {
        Ok(())
    }
}

/// After moving to byte `sector * 512 + offset` (as `set_position` leaves a
/// cursor), the cursor is in that sector at that offset and reports exactly
/// that position.
pub proof fn lemma_set_then_get_position(c: DiskCursor, sector: u64, offset: usize)
    requires
        offset < 512,
        position_of(sector, offset) <= usize::MAX,
        c.sector_spec() == position_of(sector, offset) / 512,
        c.offset_spec() == position_of(sector, offset) % 512,
    ensures
        c.wf(),
        c.pos() == position_of(sector, offset),
        c.sector_spec() == sector,
        c.offset_spec() == offset,
{
    let p = position_of(sector, offset);
    assert(p / 512 == sector && p % 512 == offset) by (nonlinear_arith)
        requires
            p == sector * 512 + offset,
            0 <= offset < 512,
            sector >= 0,
    ;
}

/// Bytes written at any offset of a sector read back unchanged from the
/// same offset, for as many bytes as the write took; every byte of the
/// sector outside that window keeps its former value.
pub proof fn lemma_write_read_round_trip(current: Seq<u8>, offset: usize, bytes: Seq<u8>)
    requires
        current.len() == 512,
        offset < 512,
    ensures
        merged_sector(current, offset as int, bytes).len() == 512,
        read_window(merged_sector(current, offset as int, bytes), offset as int, bytes.len() as int)
            == bytes.subrange(0, window_len(offset as int, bytes.len() as int)),
        forall|i: int|
            0 <= i < 512 && !(offset <= i < offset + window_len(offset as int, bytes.len() as int))
                ==> #[trigger] merged_sector(current, offset as int, bytes)[i] == current[i],
{
    let n = window_len(offset as int, bytes.len() as int);
    let after = merged_sector(current, offset as int, bytes);
    assert(read_window(after, offset as int, bytes.len() as int) =~= bytes.subrange(0, n));
}

} // verus!
