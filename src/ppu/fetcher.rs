use vstd::prelude::*;
use super::fifo::Fifo;
use crate::memory::{byte_or_open, read_or_open, zeroed};

verus! {

/// The steps of the tile fetcher, taken in this order.
#[derive(PartialEq, Eq, Structural, Clone, Copy, Debug)]
pub enum FetcherState {
    ReadTileId,
    ReadTileData0,
    ReadTileData1,
    PushToFifo,
}

/// Bit `k` of `b`.
pub open spec fn bit_of(b: u8, k: int) -> u8 {
    ((b >> (k as u8)) & 1) as u8
}

/// The fetcher: it reads a row of one tile from VRAM each four steps and
/// pushes its eight pixels into the FIFO. It steps at half the PPU clock.
pub struct Fetcher {
    pub fifo: Fifo,
    /// PPU ticks since the last step (0 or 1).
    pub ticks: u8,
    pub state: FetcherState,
    /// VRAM offset of the first tile number of the line in the tile map.
    pub map_addr: u16,
    /// Which row of the tiles is fetched (0-7).
    pub tile_line: u8,
    /// Which tile of the line comes next.
    pub tile_index: u8,
    /// The tile number read in the first step.
    pub tile_id: u8,
    /// The row's pixels, bit 0 of the row first (the rightmost pixel).
    pub tile_data: Vec<u8>,
}

impl Fetcher {
    pub open spec fn wf(self) -> bool {
        self.fifo.wf() && self.tile_data@.len() == 8 && self.ticks < 2
    }

    /// VRAM offset of the byte of bit plane `plane` of the current tile row,
    /// tiles being addressed from 0x8000.
    pub open spec fn row_addr(self, plane: u8) -> int {
        self.tile_id as int * 16 + self.tile_line as int * 2 + plane as int
    }

    pub fn new() -> (r: Fetcher)
        ensures
            r.wf(),
            r.fifo.contents() == Seq::<u8>::empty(),
            r.state == FetcherState::ReadTileId,
            r.ticks == 0,
    {
        Fetcher {
            fifo: Fifo::new(),
            ticks: 0,
            state: FetcherState::ReadTileId,
            map_addr: 0,
            tile_line: 0,
            tile_index: 0,
            tile_id: 0,
            tile_data: zeroed(8),
        }
    }

    /// Begin a line: tile numbers from `map_addr`, row `tile_line` of each tile.
    pub fn start(&mut self, map_addr: u16, tile_line: u8)
        requires
            old(self).wf(),
        ensures
            final(self).wf(),
            final(self).map_addr == map_addr,
            final(self).tile_line == tile_line,
            final(self).tile_index == 0,
            final(self).state == FetcherState::ReadTileId,
            final(self).fifo.contents() == Seq::<u8>::empty(),
            final(self).ticks == old(self).ticks,
    {
        self.map_addr = map_addr;
        self.tile_line = tile_line;
        self.tile_index = 0;
        self.state = FetcherState::ReadTileId;
        self.fifo.clear();
    }

    /// Read one bit plane of the current tile row into `tile_data`: plane 0
    /// gives bit 0 of each pixel, plane 1 bit 1.
    pub fn read_tile_line(&mut self, bit_plane: u8, vram: &Vec<u8>)
        requires
            old(self).wf(),
        ensures
            final(self).wf(),
            final(self).fifo == old(self).fifo,
            final(self).state == old(self).state,
            final(self).ticks == old(self).ticks,
            final(self).tile_id == old(self).tile_id,
            final(self).tile_index == old(self).tile_index,
            final(self).map_addr == old(self).map_addr,
            final(self).tile_line == old(self).tile_line,
            forall|k: int| 0 <= k < 8 ==> #[trigger] final(self).tile_data@[k] == if bit_plane == 0 {
                bit_of(byte_or_open(vram@, old(self).row_addr(0)), k)
            } else {
                old(self).tile_data@[k] | (bit_of(byte_or_open(vram@, old(self).row_addr(bit_plane)), k) << 1u8)
            },
    {
        let addr = self.tile_id as usize * 16 + self.tile_line as usize * 2 + bit_plane as usize;
        let pixel_data = read_or_open(vram, addr);
        let mut bit_pos: usize = 0;
        while bit_pos < 8
            invariant
                bit_pos <= 8,
                self.wf(),
                self.fifo == old(self).fifo,
                self.state == old(self).state,
                self.ticks == old(self).ticks,
                self.tile_id == old(self).tile_id,
                self.tile_index == old(self).tile_index,
                self.map_addr == old(self).map_addr,
                self.tile_line == old(self).tile_line,
                pixel_data == byte_or_open(vram@, old(self).row_addr(bit_plane)),
                forall|k: int| bit_pos <= k < 8 ==> self.tile_data@[k] == old(self).tile_data@[k],
                forall|k: int| 0 <= k < bit_pos ==> #[trigger] self.tile_data@[k] == if bit_plane == 0 {
                    bit_of(pixel_data, k)
                } else {
                    old(self).tile_data@[k] | (bit_of(pixel_data, k) << 1u8)
                },
            decreases 8 - bit_pos,
        {
            let b = (pixel_data >> (bit_pos as u8)) & 0x01;
            if bit_plane == 0 {
                self.tile_data[bit_pos] = b;
            } else {
                self.tile_data[bit_pos] = self.tile_data[bit_pos] | (b << 1);
            }
            bit_pos = bit_pos + 1;
        }
    }

    /// One PPU tick. Every second tick the fetcher takes its next step:
    /// read the tile number, read the two bit planes, then, once the FIFO
    /// has room for eight pixels, push the row leftmost pixel first and move
    /// to the next tile.
    pub fn tick(&mut self, vram: &Vec<u8>)
        requires
            old(self).wf(),
        ensures
            final(self).wf(),
            final(self).map_addr == old(self).map_addr,
            final(self).tile_line == old(self).tile_line,
            old(self).ticks == 0 ==> final(self).ticks == 1 && final(self).state == old(self).state
                && final(self).fifo == old(self).fifo,
            old(self).ticks == 1 ==> final(self).ticks == 0,
            old(self).ticks == 1 && old(self).state == FetcherState::ReadTileId ==> {
                &&& final(self).tile_id == byte_or_open(vram@, old(self).map_addr + old(self).tile_index)
                &&& final(self).state == FetcherState::ReadTileData0
            },
            old(self).ticks == 1 && old(self).state == FetcherState::ReadTileData0 ==> {
                &&& final(self).state == FetcherState::ReadTileData1
                &&& final(self).tile_id == old(self).tile_id
                &&& final(self).fifo == old(self).fifo
                &&& forall|k: int| 0 <= k < 8 ==> #[trigger] final(self).tile_data@[k] == bit_of(
                    byte_or_open(vram@, old(self).row_addr(0)),
                    k,
                )
            },
            old(self).ticks == 1 && old(self).state == FetcherState::ReadTileData1 ==> {
                &&& final(self).state == FetcherState::PushToFifo
                &&& final(self).tile_id == old(self).tile_id
                &&& final(self).fifo == old(self).fifo
                &&& forall|k: int| 0 <= k < 8 ==> #[trigger] final(self).tile_data@[k] == (old(self).tile_data@[k]
                    | (bit_of(byte_or_open(vram@, old(self).row_addr(1)), k) << 1u8))
            },
            old(self).ticks == 1 && old(self).state == FetcherState::PushToFifo ==> if old(self).fifo.size <= 8 {
                &&& final(self).fifo.contents() == old(self).fifo.contents() + old(self).tile_data@.reverse()
                &&& final(self).state == FetcherState::ReadTileId
                &&& final(self).tile_index == (old(self).tile_index + 1) % 256
            } else {
                final(self).fifo == old(self).fifo && final(self).state == FetcherState::PushToFifo
            },
    {
        if self.ticks == 0 {
            self.ticks = 1;
            return;
        }
        self.ticks = 0;
        match self.state {
            FetcherState::ReadTileId => {
                self.tile_id = read_or_open(vram, self.map_addr as usize + self.tile_index as usize);
                self.state = FetcherState::ReadTileData0;
            },
            FetcherState::ReadTileData0 => {
                self.read_tile_line(0, vram);
                self.state = FetcherState::ReadTileData1;
            },
            FetcherState::ReadTileData1 => {
                self.read_tile_line(1, vram);
                self.state = FetcherState::PushToFifo;
            },
            FetcherState::PushToFifo => {
                if self.fifo.size() <= 8 {
                    let ghost start = self.fifo.contents();
                    let mut i: usize = 8;
                    while i > 0
                        invariant
                            i <= 8,
                            self.wf(),
                            self.tile_data == old(self).tile_data,
                            start.len() <= 8,
                            self.fifo.contents() == start + old(self).tile_data@.reverse().take(8 - i),
                            self.state == old(self).state,
                            self.map_addr == old(self).map_addr,
                            self.tile_line == old(self).tile_line,
                            self.tile_index == old(self).tile_index,
                            self.ticks == 0,
                        decreases i,
                    {
                        i = i - 1;
                        let v = self.tile_data[i];
                        assert(self.fifo.size == self.fifo.contents().len());
                        self.fifo.push(v);
                        assert(old(self).tile_data@.reverse().take(8 - i) =~= old(self).tile_data@.reverse().take(8 - i - 1).push(v));
                    }
                    assert(old(self).tile_data@.reverse().take(8) =~= old(self).tile_data@.reverse());
                    self.tile_index = self.tile_index.wrapping_add(1);
                    self.state = FetcherState::ReadTileId;
                }
            },
        }
    }
}

} // verus!
