//! Reading the EDID back from the LT6911 HDMI receiver over I2C: which
//! chip is fitted, the register program that streams the EDID out in
//! blocks, and the bus frames each register access needs (the chip's
//! registers are paged: a page is selected by writing its offset to 0xFF,
//! and only when it changes).

use vstd::prelude::*;
use vstd::string::{StringExecFns, StrSliceExecFns};
use crate::textscan::{spec_trim, str_eq, trim};

verus! {

pub const I2C_DEVICE: &'static str = "/dev/i2c-4";
pub const I2C_ADDRESS: u16 = 0x2b;
pub const VERSION_PATH: &'static str = "/etc/kvm/hdmi_version";

pub const LT6911_REG_OFFSET: u8 = 0xFF;
pub const LT6911_SYS_OFFSET: u8 = 0x80;
pub const LT6911UXC_WR_SIZE: usize = 32;
pub const LT6911C_WR_SIZE: usize = 16;
pub const EDID_BUFFER_SIZE: usize = 256;

/// The receiver chips whose EDID can be read.
#[derive(Clone, Copy, Debug, PartialEq, Eq, Structural)]
pub enum ChipVersion {
    Lt6911Uxc,
    Lt6911C,
}

/// The chip named in the version file, or why it cannot be used.
pub open spec fn spec_chip_version(raw: Seq<char>) -> Result<ChipVersion, Seq<char>> {
    let v = spec_trim(raw);
    if v == "c"@ {
        Ok(ChipVersion::Lt6911C)
    } else if v == "ux"@ {
        Ok(ChipVersion::Lt6911Uxc)
    } else if v == "ue"@ {
        Err("UE chip version does not support EDID updates"@)
    } else {
        Err("Unknown chip version in "@ + VERSION_PATH@ + ": "@ + v)
    }
}

/// Reads the chip version file's content.
pub fn chip_version_from_text(raw: &str) -> (r: Result<ChipVersion, String>)
    ensures
        match (r, spec_chip_version(raw@)) {
            (Ok(a), Ok(b)) => a == b,
            (Err(a), Err(b)) => a@ == b,
            _ => false,
        },
{
    let chars = crate::text::chars_of(raw);
    let v = crate::text::string_of(trim(chars.as_slice()));
    if str_eq(v.as_str(), "c") {
        Ok(ChipVersion::Lt6911C)
    } else if str_eq(v.as_str(), "ux") {
        Ok(ChipVersion::Lt6911Uxc)
    } else if str_eq(v.as_str(), "ue") {
        Err(String::from_str("UE chip version does not support EDID updates"))
    } else {
        let mut m = String::from_str("Unknown chip version in ");
        m.append(VERSION_PATH);
        m.append(": ");
        m.append(v.as_str());
        Err(m)
    }
}

/// One register access of the read program.
#[derive(Clone, Copy, Debug, PartialEq, Eq, Structural)]
pub enum I2cOp {
    /// Write `data` to register `reg` of page `offset`.
    WriteByte { offset: u8, reg: u8, data: u8 },
    /// Read `len` bytes from register `reg` of page `offset` into the EDID
    /// buffer at `dest`.
    Read { offset: u8, reg: u8, dest: usize, len: usize },
}

/// A write to the system page.
pub open spec fn sys_write(reg: u8, data: u8) -> I2cOp {
    I2cOp::WriteByte { offset: LT6911_SYS_OFFSET, reg, data }
}

/// The block size of a chip.
pub open spec fn block_size(chip: ChipVersion) -> usize {
    match chip {
        ChipVersion::Lt6911Uxc => LT6911UXC_WR_SIZE,
        ChipVersion::Lt6911C => LT6911C_WR_SIZE,
    }
}

/// The start of the program: select the system page, enable the chip and
/// reset the EDID controller.
pub open spec fn program_start(chip: ChipVersion) -> Seq<I2cOp> {
    match chip {
        ChipVersion::Lt6911Uxc => seq![sys_write(0xFF, 0x80), sys_write(0xEE, 0x01), sys_write(0x5A, 0x84), sys_write(0x5A, 0x80)],
        ChipVersion::Lt6911C => seq![sys_write(0xFF, 0x80), sys_write(0xEE, 0x01), sys_write(0x5A, 0x86), sys_write(0x5A, 0x82)],
    }
}

/// The accesses that read block `i`: set up the transfer from address
/// `size * i` (modulo 256), start it, and read the block.
pub open spec fn block_ops(chip: ChipVersion, i: nat) -> Seq<I2cOp> {
    let size = block_size(chip);
    let addr = ((size * i) % 256) as u8;
    let dest = (size * i) as usize;
    match chip {
        ChipVersion::Lt6911Uxc => seq![
            sys_write(0x5E, 0x5F),
            sys_write(0x5A, 0xA0),
            sys_write(0x5A, 0x80),
            sys_write(0x5B, 0x01),
            sys_write(0x5C, 0x80),
            sys_write(0x5D, addr),
            sys_write(0x5A, 0x90),
            sys_write(0x5A, 0x80),
            sys_write(0x58, 0x21),
            I2cOp::Read { offset: LT6911_SYS_OFFSET, reg: 0x5F, dest, len: size },
        ],
        ChipVersion::Lt6911C => seq![
            sys_write(0x5E, 0x6F),
            sys_write(0x5A, 0xA2),
            sys_write(0x5A, 0x82),
            sys_write(0x5B, 0x01),
            sys_write(0x5C, 0x80),
            sys_write(0x5D, addr),
            sys_write(0x5A, 0x92),
            sys_write(0x5A, 0x82),
            sys_write(0x58, 0x01),
            I2cOp::Read { offset: LT6911_SYS_OFFSET, reg: 0x5F, dest, len: size },
        ],
    }
}

/// The whole program for `count` blocks.
pub open spec fn spec_read_program(chip: ChipVersion, count: nat) -> Seq<I2cOp>
    decreases count,
{
    if count == 0 {
        program_start(chip)
    } else {
        spec_read_program(chip, (count - 1) as nat) + block_ops(chip, (count - 1) as nat)
    }
}

fn push_block_ops(out: &mut Vec<I2cOp>, chip: ChipVersion, i: usize, size: usize)
    requires
        size == block_size(chip),
        size * i <= usize::MAX,
    ensures
        final(out)@ == old(out)@ + block_ops(chip, i as nat),
{
    let dest = size * i;
    let addr = (dest % 256) as u8;
    let s = LT6911_SYS_OFFSET;
    let ghost before = out@;
    match chip {
        ChipVersion::Lt6911Uxc => {
            out.push(I2cOp::WriteByte { offset: s, reg: 0x5E, data: 0x5F });
            out.push(I2cOp::WriteByte { offset: s, reg: 0x5A, data: 0xA0 });
            out.push(I2cOp::WriteByte { offset: s, reg: 0x5A, data: 0x80 });
            out.push(I2cOp::WriteByte { offset: s, reg: 0x5B, data: 0x01 });
            out.push(I2cOp::WriteByte { offset: s, reg: 0x5C, data: 0x80 });
            out.push(I2cOp::WriteByte { offset: s, reg: 0x5D, data: addr });
            out.push(I2cOp::WriteByte { offset: s, reg: 0x5A, data: 0x90 });
            out.push(I2cOp::WriteByte { offset: s, reg: 0x5A, data: 0x80 });
            out.push(I2cOp::WriteByte { offset: s, reg: 0x58, data: 0x21 });
            out.push(I2cOp::Read { offset: s, reg: 0x5F, dest, len: size });
        },
        ChipVersion::Lt6911C => {
            out.push(I2cOp::WriteByte { offset: s, reg: 0x5E, data: 0x6F });
            out.push(I2cOp::WriteByte { offset: s, reg: 0x5A, data: 0xA2 });
            out.push(I2cOp::WriteByte { offset: s, reg: 0x5A, data: 0x82 });
            out.push(I2cOp::WriteByte { offset: s, reg: 0x5B, data: 0x01 });
            out.push(I2cOp::WriteByte { offset: s, reg: 0x5C, data: 0x80 });
            out.push(I2cOp::WriteByte { offset: s, reg: 0x5D, data: addr });
            out.push(I2cOp::WriteByte { offset: s, reg: 0x5A, data: 0x92 });
            out.push(I2cOp::WriteByte { offset: s, reg: 0x5A, data: 0x82 });
            out.push(I2cOp::WriteByte { offset: s, reg: 0x58, data: 0x01 });
            out.push(I2cOp::Read { offset: s, reg: 0x5F, dest, len: size });
        },
    }
    assert(out@ =~= before + block_ops(chip, i as nat));
}

/// The register program that reads an EDID of `len` bytes from `chip`:
/// as many whole blocks as fit.
pub fn edid_read_program(chip: ChipVersion, len: usize) -> (r: Vec<I2cOp>)
    ensures
        r@ == spec_read_program(chip, (len / block_size(chip)) as nat),
{
    let size = match chip {
        ChipVersion::Lt6911Uxc => LT6911UXC_WR_SIZE,
        ChipVersion::Lt6911C => LT6911C_WR_SIZE,
    };
    let count = len / size;
    let mut out: Vec<I2cOp> = Vec::new();
    let s = LT6911_SYS_OFFSET;
    out.push(I2cOp::WriteByte { offset: s, reg: 0xFF, data: 0x80 });
    out.push(I2cOp::WriteByte { offset: s, reg: 0xEE, data: 0x01 });
    match chip {
        ChipVersion::Lt6911Uxc => {
            out.push(I2cOp::WriteByte { offset: s, reg: 0x5A, data: 0x84 });
            out.push(I2cOp::WriteByte { offset: s, reg: 0x5A, data: 0x80 });
        },
        ChipVersion::Lt6911C => {
            out.push(I2cOp::WriteByte { offset: s, reg: 0x5A, data: 0x86 });
            out.push(I2cOp::WriteByte { offset: s, reg: 0x5A, data: 0x82 });
        },
    }
    assert(out@ =~= program_start(chip));
    let mut i: usize = 0;
    while i < count
        invariant
            size == block_size(chip),
            count == len / size,
            size > 0,
            i <= count,
            out@ == spec_read_program(chip, i as nat),
        decreases count - i,
    {
        assert(size * i <= len) by (nonlinear_arith)
            requires
                i < count,
                count == len / size,
                size > 0,
        ;
        push_block_ops(&mut out, chip, i, size);
        i = i + 1;
    }
    out
}

/// The bus side of the register accesses: which page is selected.
#[derive(Clone, Copy, Debug)]
pub struct I2cPager {
    pub old_offset: u8,
}

/// The page-select frame, when `offset` is not the selected page.
pub open spec fn page_frames(old_offset: u8, offset: u8) -> Seq<Seq<u8>> {
    if offset != old_offset { seq![seq![LT6911_REG_OFFSET, offset]] } else { Seq::empty() }
}

impl I2cPager {
    /// No page is known to be selected (0xFF, which no access uses).
    pub fn new() -> (r: I2cPager)
        ensures
            r.old_offset == 0xFF,
    {
        I2cPager { old_offset: 0xFF }
    }

    /// The frames that write `data` to register `reg` of page `offset`:
    /// the page select if needed, then the register and the data.
    pub fn write_frames(&mut self, offset: u8, reg: u8, data: &[u8]) -> (r: Result<Vec<Vec<u8>>, String>)
        ensures
            data@.len() == 0 ==> (r matches Err(m) && m@ == "I2C write length must be > 0"@)
                && final(self).old_offset == old(self).old_offset,
            data@.len() > 0 ==> (r matches Ok(f) && f@.map_values(|v: Vec<u8>| v@) == page_frames(old(self).old_offset, offset)
                + seq![seq![reg] + data@]) && final(self).old_offset == offset,
    {
        if data.len() == 0 {
            return Err(String::from_str("I2C write length must be > 0"));
        }
        let mut frames: Vec<Vec<u8>> = Vec::new();
        let ghost old_offset = self.old_offset;
        if offset != self.old_offset {
            self.old_offset = offset;
            frames.push(vec![LT6911_REG_OFFSET, offset]);
        }
        let mut buf: Vec<u8> = vec![reg];
        let mut k: usize = 0;
        while k < data.len()
            invariant
                k <= data@.len(),
                buf@ == seq![reg] + data@.subrange(0, k as int),
            decreases data.len() - k,
        {
            buf.push(data[k]);
            assert(buf@ =~= seq![reg] + data@.subrange(0, k + 1));
            k = k + 1;
        }
        assert(data@.subrange(0, data@.len() as int) =~= data@);
        let ghost fs = frames@.map_values(|v: Vec<u8>| v@);
        frames.push(buf);
        assert(fs =~= page_frames(old_offset, offset));
        assert(frames@.map_values(|v: Vec<u8>| v@) =~= fs + seq![seq![reg] + data@]);
        Ok(frames)
    }

    /// The frames written before reading `len` bytes from register `reg`
    /// of page `offset`: the page select if needed, then the register.
    pub fn read_frames(&mut self, offset: u8, reg: u8, len: usize) -> (r: Result<Vec<Vec<u8>>, String>)
        ensures
            len == 0 ==> (r matches Err(m) && m@ == "I2C read length must be > 0"@)
                && final(self).old_offset == old(self).old_offset,
            len > 0 ==> (r matches Ok(f) && f@.map_values(|v: Vec<u8>| v@) == page_frames(old(self).old_offset, offset)
                + seq![seq![reg]]) && final(self).old_offset == offset,
    {
        if len == 0 {
            return Err(String::from_str("I2C read length must be > 0"));
        }
        let mut frames: Vec<Vec<u8>> = Vec::new();
        let ghost old_offset = self.old_offset;
        if offset != self.old_offset {
            self.old_offset = offset;
            frames.push(vec![LT6911_REG_OFFSET, offset]);
        }
        let ghost fs = frames@.map_values(|v: Vec<u8>| v@);
        let b = vec![reg];
        assert(b@ =~= seq![reg]);
        frames.push(b);
        assert(fs =~= page_frames(old_offset, offset));
        assert(frames@.map_values(|v: Vec<u8>| v@) =~= fs + seq![seq![reg]]);
        Ok(frames)
    }
}

} // verus!
