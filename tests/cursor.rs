use blkcore::cursor::{DiskCursor, DiskCursorIoError, SeekPos, WriteStep, SECTOR_SIZE};

struct MemDisk {
    sectors: Vec<[u8; 512]>,
    reads: usize,
    writes: usize,
}

impl MemDisk {
    fn new(count: usize) -> MemDisk {
        MemDisk { sectors: vec![[0u8; 512]; count], reads: 0, writes: 0 }
    }

    fn read_block(&mut self, sector: u64) -> [u8; 512] {
        self.reads += 1;
        self.sectors[sector as usize]
    }

    fn write_block(&mut self, sector: u64, data: &[u8]) {
        self.writes += 1;
        self.sectors[sector as usize].copy_from_slice(data);
    }
}

fn disk_read(c: &mut DiskCursor, d: &mut MemDisk, len: usize) -> Vec<u8> {
    let data = d.read_block(c.sector());
    c.read(&data, len)
}

fn disk_write(c: &mut DiskCursor, d: &mut MemDisk, buf: &[u8]) -> usize {
    let step = match c.write(buf, None) {
        WriteStep::ReadSector { sector } => {
            let cur = d.read_block(sector);
            c.write(buf, Some(&cur))
        }
        other => other,
    };
    match step {
        WriteStep::WriteSector { sector, data, written } => {
            d.write_block(sector, &data);
            written
        }
        WriteStep::ReadSector { .. } => panic!("sector contents were given"),
    }
}

#[test]
fn position_round_trip_over_sectors_and_offsets() {
    let mut c = DiskCursor::new();
    for sector in [0usize, 1, 5, 77, 4096] {
        for offset in [0usize, 1, 10, 255, 511] {
            c.set_position(sector * 512 + offset);
            assert_eq!(c.get_position(), sector * 512 + offset);
            assert_eq!(c.sector(), sector as u64);
            assert_eq!(c.offset(), offset);
        }
    }
}

#[test]
fn new_cursor_starts_at_zero() {
    let c = DiskCursor::new();
    assert_eq!(c.get_position(), 0);
    assert_eq!(SECTOR_SIZE, 512);
}

#[test]
fn move_cursor_crosses_sector_boundary() {
    let mut c = DiskCursor::new();
    c.set_position(510);
    c.move_cursor(5);
    assert_eq!(c.get_position(), 515);
    assert_eq!(c.sector(), 1);
    assert_eq!(c.offset(), 3);
}

#[test]
fn scenario_write_ab_in_zero_sector() {
    let mut d = MemDisk::new(8);
    let mut c = DiskCursor::new();
    c.set_position(5 * 512 + 10);
    assert_eq!(disk_write(&mut c, &mut d, b"AB"), 2);
    c.set_position(5 * 512 + 10);
    assert_eq!(disk_read(&mut c, &mut d, 2), b"AB".to_vec());
    let raw = d.read_block(5);
    assert_eq!(&raw[10..12], b"AB");
    for (i, b) in raw.iter().enumerate() {
        if i != 10 && i != 11 {
            assert_eq!(*b, 0);
        }
    }
}

#[test]
fn unaligned_write_read_round_trip_keeps_neighbours() {
    let mut d = MemDisk::new(4);
    for (i, b) in d.sectors[2].iter_mut().enumerate() {
        *b = (i % 251) as u8;
    }
    let before = d.sectors[2];
    let payload: Vec<u8> = (0..40u8).map(|x| x.wrapping_mul(7).wrapping_add(3)).collect();
    let mut c = DiskCursor::new();
    c.set_position(2 * 512 + 301);
    assert_eq!(disk_write(&mut c, &mut d, &payload), 40);
    assert_eq!(c.get_position(), 2 * 512 + 341);
    c.set_position(2 * 512 + 301);
    assert_eq!(disk_read(&mut c, &mut d, 40), payload);
    let after = d.sectors[2];
    for i in 0..512 {
        if !(301..341).contains(&i) {
            assert_eq!(after[i], before[i]);
        }
    }
}

#[test]
fn write_stops_at_sector_end() {
    let mut d = MemDisk::new(4);
    let mut c = DiskCursor::new();
    c.set_position(512 + 500);
    let payload = [9u8; 30];
    assert_eq!(disk_write(&mut c, &mut d, &payload), 12);
    assert_eq!(c.get_position(), 1024);
    assert_eq!(d.sectors[1][499], 0);
    assert!(d.sectors[1][500..].iter().all(|b| *b == 9));
    assert!(d.sectors[2].iter().all(|b| *b == 0));
}

#[test]
fn read_stops_at_sector_end() {
    let mut d = MemDisk::new(2);
    d.sectors[0][508] = 1;
    d.sectors[0][511] = 4;
    let mut c = DiskCursor::new();
    c.set_position(508);
    let got = disk_read(&mut c, &mut d, 100);
    assert_eq!(got, vec![1, 0, 0, 4]);
    assert_eq!(c.get_position(), 512);
}

#[test]
fn aligned_full_write_needs_no_read() {
    let mut d = MemDisk::new(4);
    let mut c = DiskCursor::new();
    c.set_position(3 * 512);
    let payload = [0x5Au8; 600];
    match c.write(&payload, None) {
        WriteStep::WriteSector { sector, data, written } => {
            assert_eq!(sector, 3);
            assert_eq!(written, 512);
            assert_eq!(data, vec![0x5Au8; 512]);
            d.write_block(sector, &data);
        }
        WriteStep::ReadSector { .. } => panic!("an aligned whole sector asked for a read"),
    }
    assert_eq!(d.reads, 0);
    assert_eq!(d.writes, 1);
    assert_eq!(c.get_position(), 4 * 512);
}

#[test]
fn aligned_full_read_uses_one_block_read() {
    let mut d = MemDisk::new(2);
    d.sectors[1] = [3u8; 512];
    let mut c = DiskCursor::new();
    c.set_position(512);
    let got = disk_read(&mut c, &mut d, 512);
    assert_eq!(got, vec![3u8; 512]);
    assert_eq!(d.reads, 1);
    assert_eq!(d.writes, 0);
    assert_eq!(c.get_position(), 1024);
}

#[test]
fn unaligned_write_reads_then_writes_once() {
    let mut d = MemDisk::new(2);
    let mut c = DiskCursor::new();
    c.set_position(1);
    assert_eq!(c.write(&[1, 2], None), WriteStep::ReadSector { sector: 0 });
    assert_eq!(c.get_position(), 1);
    disk_write(&mut c, &mut d, &[1, 2]);
    assert_eq!(d.reads, 1);
    assert_eq!(d.writes, 1);
}

#[test]
fn empty_write_and_read_make_no_progress() {
    let mut d = MemDisk::new(1);
    let mut c = DiskCursor::new();
    c.set_position(7);
    assert_eq!(disk_write(&mut c, &mut d, &[]), 0);
    assert_eq!(disk_read(&mut c, &mut d, 0), Vec::<u8>::new());
    assert_eq!(c.get_position(), 7);
}

#[test]
fn seek_from_start_and_current() {
    let mut c = DiskCursor::new();
    assert_eq!(c.seek(SeekPos::Start(1300)), Ok(1300));
    assert_eq!(c.get_position(), 1300);
    assert_eq!(c.seek(SeekPos::Current(-300)), Ok(1000));
    assert_eq!(c.sector(), 1);
    assert_eq!(c.offset(), 488);
    assert_eq!(c.seek(SeekPos::Current(24)), Ok(1024));
    assert_eq!(c.offset(), 0);
}

#[test]
fn seek_from_end_is_not_supported() {
    let mut c = DiskCursor::new();
    c.set_position(99);
    assert_eq!(c.seek(SeekPos::End(0)), Err(DiskCursorIoError::NotSupported));
    assert_eq!(c.get_position(), 99);
}

#[test]
fn flush_succeeds_and_keeps_position() {
    let mut c = DiskCursor::new();
    c.set_position(42);
    assert_eq!(c.flush(), Ok(()));
    assert_eq!(c.get_position(), 42);
}

#[test]
fn error_constructors() {
    assert_eq!(DiskCursorIoError::new_unexpected_eof_error(), DiskCursorIoError::UnexpectedEof);
    assert_eq!(DiskCursorIoError::new_write_zero_error(), DiskCursorIoError::WriteZero);
    assert!(!DiskCursorIoError::WriteZero.is_interrupted());
    assert!(!DiskCursorIoError::UnexpectedEof.is_interrupted());
    assert!(!DiskCursorIoError::NotSupported.is_interrupted());
}
