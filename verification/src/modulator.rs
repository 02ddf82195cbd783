use vstd::prelude::*;

verus! {

/// Bytes per serialized modulator record.
pub const MOD_RECORD_SIZE: usize = 10;

/// Little-endian unsigned 16-bit value at offset `i` of `d`.
pub open spec fn le_u16(d: Seq<u8>, i: int) -> int {
    d[i] + 256 * d[i + 1]
}

/// Little-endian signed 16-bit value at offset `i` of `d` (two's
/// complement).
pub open spec fn le_i16(d: Seq<u8>, i: int) -> int {
    if le_u16(d, i) < 0x8000 {
        le_u16(d, i)
    } else {
        le_u16(d, i) - 0x10000
    }
}

/// Cursor over a byte buffer, consumed front to back.
pub struct Reader {
    pub data: Vec<u8>,
    pub pos: usize,
}

impl Reader {
    pub fn new(data: Vec<u8>) -> (r: Reader)
        ensures
            r.data@ == data@,
            r.pos == 0,
    {
        Reader { data, pos: 0 }
    }

    pub fn read_u16(&mut self) -> (r: u16)
        requires
            old(self).pos + 2 <= old(self).data@.len(),
        ensures
            final(self).data@ == old(self).data@,
            final(self).pos == old(self).pos + 2,
            r == le_u16(old(self).data@, old(self).pos as int),
    {
        let _n = self.data.len();
        let lo = self.data[self.pos] as u16;
        let hi = self.data[self.pos + 1] as u16;
        self.pos = self.pos + 2;
        lo + hi * 256
    }

    pub fn read_i16(&mut self) -> (r: i16)
        requires
            old(self).pos + 2 <= old(self).data@.len(),
        ensures
            final(self).data@ == old(self).data@,
            final(self).pos == old(self).pos + 2,
            r == le_i16(old(self).data@, old(self).pos as int),
    {
        let u = self.read_u16();
        if u < 0x8000 {
            u as i16
        } else {
            ((u as i32) - 0x10000) as i16
        }
    }
}

/// A preset modulator record of the SoundFont hydra: source, destination,
/// amount, amount source, and transform selectors.
#[derive(Clone, Copy, PartialEq, Eq, Structural, Debug)]
pub struct SFModulator {
    pub src: u16,
    pub dest: u16,
    pub amount: i16,
    pub amt_src: u16,
    pub transform: u16,
}

/// `m` is the modulator record serialized at offset `off` of `d`.
pub open spec fn mod_record_at(m: SFModulator, d: Seq<u8>, off: int) -> bool {
    &&& m.src == le_u16(d, off)
    &&& m.dest == le_u16(d, off + 2)
    &&& m.amount == le_i16(d, off + 4)
    &&& m.amt_src == le_u16(d, off + 6)
    &&& m.transform == le_u16(d, off + 8)
}

impl SFModulator {
    /// Decode one record from the reader's current position.
    pub fn read(reader: &mut Reader) -> (r: Self)
        requires
            old(reader).pos + MOD_RECORD_SIZE <= old(reader).data@.len(),
        ensures
            final(reader).data@ == old(reader).data@,
            final(reader).pos == old(reader).pos + MOD_RECORD_SIZE,
            mod_record_at(r, old(reader).data@, old(reader).pos as int),
    {
        let src: u16 = reader.read_u16();
        let dest: u16 = reader.read_u16();
        let amount: i16 = reader.read_i16();
        let amt_src: u16 = reader.read_u16();
        let transform: u16 = reader.read_u16();

        Self { src, dest, amount, amt_src, transform }
    }

    /// Decode a whole preset-modulator chunk body: one record per
    /// `MOD_RECORD_SIZE` bytes. The caller (who reads the chunk from its
    /// container) must already have checked that the body is non-empty
    /// and a whole number of records.
    pub fn read_all(data: Vec<u8>) -> (r: Vec<Self>)
        requires
            data@.len() as int % MOD_RECORD_SIZE as int == 0,
            data@.len() > 0,
        ensures
            r@.len() == data@.len() as int / MOD_RECORD_SIZE as int,
            forall|k: int|
                0 <= k < r@.len() ==> mod_record_at(
                    #[trigger] r@[k],
                    data@,
                    k * MOD_RECORD_SIZE as int,
                ),
    {
        let amount = data.len() / MOD_RECORD_SIZE;
        let ghost dview = data@;
        let mut reader = Reader::new(data);
        let mut out: Vec<Self> = Vec::new();
        let mut k: usize = 0;
        while k < amount
            invariant
                k <= amount,
                reader.data@ == dview,
                amount == reader.data@.len() as int / MOD_RECORD_SIZE as int,
                reader.data@.len() as int % MOD_RECORD_SIZE as int == 0,
                reader.pos == k * MOD_RECORD_SIZE,
                out@.len() == k,
                forall|j: int|
                    0 <= j < k ==> mod_record_at(
                        #[trigger] out@[j],
                        reader.data@,
                        j * MOD_RECORD_SIZE as int,
                    ),
            decreases amount - k,
        {
            proof {
                assert((k + 1) * MOD_RECORD_SIZE as int <= amount * MOD_RECORD_SIZE as int)
                    by (nonlinear_arith)
                    requires
                        k + 1 <= amount,
                        MOD_RECORD_SIZE as int > 0,
                ;
                assert(amount * MOD_RECORD_SIZE as int == reader.data@.len()) by (nonlinear_arith)
                    requires
                        amount == reader.data@.len() as int / MOD_RECORD_SIZE as int,
                        reader.data@.len() as int % MOD_RECORD_SIZE as int == 0,
                        MOD_RECORD_SIZE as int > 0,
                ;
            }
            let m = Self::read(&mut reader);
            out.push(m);
            k += 1;
        }
        out
    }
}

} // verus!
