use vstd::prelude::*;

verus! {

/// The kind of device that backs a region of the address space.
#[derive(Debug, Clone, Copy, PartialEq, Eq, Structural)]
pub enum MemoryType {
    RAM,
    IO,
}

/// The 16-bit value that two bytes encode, least significant byte first.
pub open spec fn le_u16(bytes: Seq<u8>) -> u16 {
    (bytes[0] + 0x100 * bytes[1]) as u16
}

/// The 32-bit value that four bytes encode, least significant byte first.
pub open spec fn le_u32(bytes: Seq<u8>) -> u32 {
    (bytes[0] + 0x100 * bytes[1] + 0x1_0000 * bytes[2] + 0x100_0000 * bytes[3]) as u32
}

/// The 64-bit value that eight bytes encode, least significant byte first.
pub open spec fn le_u64(bytes: Seq<u8>) -> u64 {
    (le_u32(bytes.subrange(0, 4)) + 0x1_0000_0000 * le_u32(bytes.subrange(4, 8))) as u64
}

/// The two bytes of a 16-bit value, least significant first.
pub open spec fn le_bytes_u16(value: u16) -> Seq<u8> {
    seq![(value % 0x100) as u8, (value / 0x100) as u8]
}

/// The four bytes of a 32-bit value, least significant first.
pub open spec fn le_bytes_u32(value: u32) -> Seq<u8> {
    seq![
        (value % 0x100) as u8,
        ((value / 0x100) % 0x100) as u8,
        ((value / 0x1_0000) % 0x100) as u8,
        (value / 0x100_0000) as u8,
    ]
}

/// The eight bytes of a 64-bit value, least significant first.
pub open spec fn le_bytes_u64(value: u64) -> Seq<u8> {
    le_bytes_u32((value % 0x1_0000_0000) as u32) + le_bytes_u32((value / 0x1_0000_0000) as u32)
}

/// `bytes` with the window that starts at `at` replaced by `patch`.
pub open spec fn splice(bytes: Seq<u8>, at: int, patch: Seq<u8>) -> Seq<u8> {
    Seq::new(
        bytes.len(),
        |i: int|
            if at <= i < at + patch.len() {
                patch[i - at]
            } else {
                bytes[i]
            },
    )
}

/// A value is the sum of its bytes, each weighted by its place.
proof fn lemma_byte_places(half: u16, word: u32, double: u64)
    ensures
        (half % 0x100) + 0x100 * (half / 0x100) == half,
        half / 0x100 < 0x100,
        (word % 0x100) + 0x100 * ((word / 0x100) % 0x100) + 0x1_0000 * ((word / 0x1_0000) % 0x100)
            + 0x100_0000 * (word / 0x100_0000) == word,
        word / 0x100_0000 < 0x100,
        (double % 0x1_0000_0000) + 0x1_0000_0000 * (double / 0x1_0000_0000) == double,
        double / 0x1_0000_0000 < 0x1_0000_0000,
{
}

/// Decoding the little-endian bytes of a value gives the value back.
pub proof fn lemma_le_round_trip(half: u16, word: u32, double: u64)
    ensures
        le_u16(le_bytes_u16(half)) == half,
        le_u32(le_bytes_u32(word)) == word,
        le_u64(le_bytes_u64(double)) == double,
{
    let low = (double % 0x1_0000_0000) as u32;
    let high = (double / 0x1_0000_0000) as u32;
    lemma_byte_places(half, word, double);
    lemma_byte_places(0, low, 0);
    lemma_byte_places(0, high, 0);
    let bytes = le_bytes_u64(double);
    assert(bytes.subrange(0, 4) =~= le_bytes_u32(low));
    assert(bytes.subrange(4, 8) =~= le_bytes_u32(high));
    assert(le_u32(le_bytes_u32(low)) == low);
    assert(le_u32(le_bytes_u32(high)) == high);
}

/// Reading back a window that was just spliced in gives the patch, and
/// the bytes outside the window are as before.
pub proof fn lemma_splice_window(bytes: Seq<u8>, at: int, patch: Seq<u8>)
    requires
        0 <= at,
        at + patch.len() <= bytes.len(),
    ensures
        splice(bytes, at, patch).len() == bytes.len(),
        splice(bytes, at, patch).subrange(at, at + patch.len()) == patch,
        forall|i: int|
            0 <= i < bytes.len() && !(at <= i < at + patch.len()) ==> splice(bytes, at, patch)[i]
                == bytes[i],
{
    assert(splice(bytes, at, patch).subrange(at, at + patch.len()) =~= patch);
}

/// Reads the byte at `addr`.
pub fn load_u8(bytes: &Vec<u8>, addr: usize) -> (value: u8)
    requires
        addr < bytes.len(),
    ensures
        value == bytes@[addr as int],
{
    bytes[addr]
}

/// Reads the little-endian half word at `addr`.
pub fn load_u16(bytes: &Vec<u8>, addr: usize) -> (value: u16)
    requires
        addr + 2 <= bytes.len(),
    ensures
        value == le_u16(bytes@.subrange(addr as int, addr + 2)),
{
    let low: u16 = bytes[addr] as u16;
    let high: u16 = bytes[addr + 1] as u16;
    low + 0x100 * high
}

/// Reads the little-endian word at `addr`.
pub fn load_u32(bytes: &Vec<u8>, addr: usize) -> (value: u32)
    requires
        addr + 4 <= bytes.len(),
    ensures
        value == le_u32(bytes@.subrange(addr as int, addr + 4)),
{
    let b0: u32 = bytes[addr] as u32;
    let b1: u32 = bytes[addr + 1] as u32;
    let b2: u32 = bytes[addr + 2] as u32;
    let b3: u32 = bytes[addr + 3] as u32;
    b0 + 0x100 * b1 + 0x1_0000 * b2 + 0x100_0000 * b3
}

/// Reads the little-endian double word at `addr`.
pub fn load_u64(bytes: &Vec<u8>, addr: usize) -> (value: u64)
    requires
        addr + 8 <= bytes.len(),
    ensures
        value == le_u64(bytes@.subrange(addr as int, addr + 8)),
{
    let low: u64 = load_u32(bytes, addr) as u64;
    let high: u64 = load_u32(bytes, addr + 4) as u64;
    proof {
        let window = bytes@.subrange(addr as int, addr + 8);
        assert(window.subrange(0, 4) =~= bytes@.subrange(addr as int, addr + 4));
        assert(window.subrange(4, 8) =~= bytes@.subrange(addr + 4, addr + 8));
    }
    low + 0x1_0000_0000 * high
}

/// Stores `value` at `addr`.
pub fn store_u8(bytes: &mut Vec<u8>, addr: usize, value: u8)
    requires
        addr < old(bytes).len(),
    ensures
        final(bytes)@ == old(bytes)@.update(addr as int, value),
{
    bytes[addr] = value;
}

/// Stores `value` at `addr`, least significant byte first.
pub fn store_u16(bytes: &mut Vec<u8>, addr: usize, value: u16)
    requires
        addr + 2 <= old(bytes).len(),
    ensures
        final(bytes)@ == splice(old(bytes)@, addr as int, le_bytes_u16(value)),
{
    bytes[addr] = (value % 0x100) as u8;
    bytes[addr + 1] = (value / 0x100) as u8;
    assert(bytes@ =~= splice(old(bytes)@, addr as int, le_bytes_u16(value)));
}

/// Stores `value` at `addr`, least significant byte first.
pub fn store_u32(bytes: &mut Vec<u8>, addr: usize, value: u32)
    requires
        addr + 4 <= old(bytes).len(),
    ensures
        final(bytes)@ == splice(old(bytes)@, addr as int, le_bytes_u32(value)),
{
    bytes[addr] = (value % 0x100) as u8;
    bytes[addr + 1] = ((value / 0x100) % 0x100) as u8;
    bytes[addr + 2] = ((value / 0x1_0000) % 0x100) as u8;
    bytes[addr + 3] = (value / 0x100_0000) as u8;
    assert(bytes@ =~= splice(old(bytes)@, addr as int, le_bytes_u32(value)));
}

/// Stores `value` at `addr`, least significant byte first.
pub fn store_u64(bytes: &mut Vec<u8>, addr: usize, value: u64)
    requires
        addr + 8 <= old(bytes).len(),
    ensures
        final(bytes)@ == splice(old(bytes)@, addr as int, le_bytes_u64(value)),
{
    let low: u32 = (value % 0x1_0000_0000) as u32;
    let high: u32 = (value / 0x1_0000_0000) as u32;
    store_u32(bytes, addr, low);
    store_u32(bytes, addr + 4, high);
    assert(bytes@ =~= splice(old(bytes)@, addr as int, le_bytes_u64(value)));
}

/// Copies the first `len` bytes of `value` to `addr`.
pub fn store_bytes(bytes: &mut Vec<u8>, addr: usize, len: usize, value: &[u8])
    requires
        addr + len <= old(bytes).len(),
        len <= value@.len(),
    ensures
        final(bytes)@ == splice(old(bytes)@, addr as int, value@.subrange(0, len as int)),
{
    let mut i: usize = 0;
    while i < len
        invariant
            0 <= i <= len,
            len <= value@.len(),
            bytes.len() == old(bytes).len(),
            addr + len <= bytes.len(),
            bytes@ =~= splice(old(bytes)@, addr as int, value@.subrange(0, i as int)),
        decreases len - i,
    {
        bytes[addr + i] = value[i];
        i += 1;
    }
}

/// Copies `len` bytes from `addr` to the start of `buf`.
pub fn load_bytes(bytes: &Vec<u8>, addr: usize, len: usize, buf: &mut [u8])
    requires
        addr + len <= bytes.len(),
        len <= old(buf)@.len(),
    ensures
        final(buf)@ == splice(old(buf)@, 0, bytes@.subrange(addr as int, addr + len)),
{
    let mut i: usize = 0;
    while i < len
        invariant
            0 <= i <= len,
            addr + len <= bytes.len(),
            len <= buf@.len(),
            buf@.len() == old(buf)@.len(),
            buf@ =~= splice(old(buf)@, 0, bytes@.subrange(addr as int, addr + i)),
        decreases len - i,
    {
        buf[i] = bytes[addr + i];
        i += 1;
    }
}

/// A device that backs a region of the address space: a store of bytes
/// that is read and written at offsets local to the region, in units of
/// one, two, four or eight bytes (little-endian) or in bulk.
pub trait Device {
    /// The bytes the device holds, by offset.
    spec fn contents(&self) -> Seq<u8>;

    /// What kind of device this is; a device is of one kind for good.
    spec fn kind(&self) -> MemoryType;

    fn read_byte(&self, addr: usize) -> (value: u8)
        requires
            addr < self.contents().len(),
        ensures
            value == self.contents()[addr as int],
    ;

    fn write_byte(&mut self, addr: usize, value: u8)
        requires
            addr < old(self).contents().len(),
        ensures
            final(self).contents() == old(self).contents().update(addr as int, value),
        final(self).kind() == old(self).kind(),
    ;

    fn read_half_word(&self, addr: usize) -> (value: u16)
        requires
            addr + 2 <= self.contents().len(),
        ensures
            value == le_u16(self.contents().subrange(addr as int, addr + 2)),
    ;

    fn write_half_word(&mut self, addr: usize, value: u16)
        requires
            addr + 2 <= old(self).contents().len(),
        ensures
            final(self).contents() == splice(old(self).contents(), addr as int, le_bytes_u16(value)),
        final(self).kind() == old(self).kind(),
    ;

    fn read_word(&self, addr: usize) -> (value: u32)
        requires
            addr + 4 <= self.contents().len(),
        ensures
            value == le_u32(self.contents().subrange(addr as int, addr + 4)),
    ;

    fn write_word(&mut self, addr: usize, value: u32)
        requires
            addr + 4 <= old(self).contents().len(),
        ensures
            final(self).contents() == splice(old(self).contents(), addr as int, le_bytes_u32(value)),
        final(self).kind() == old(self).kind(),
    ;

    fn read_double_word(&self, addr: usize) -> (value: u64)
        requires
            addr + 8 <= self.contents().len(),
        ensures
            value == le_u64(self.contents().subrange(addr as int, addr + 8)),
    ;

    fn write_double_word(&mut self, addr: usize, value: u64)
        requires
            addr + 8 <= old(self).contents().len(),
        ensures
            final(self).contents() == splice(old(self).contents(), addr as int, le_bytes_u64(value)),
        final(self).kind() == old(self).kind(),
    ;

    fn write(&mut self, addr: usize, len: usize, value: &[u8])
        requires
            addr + len <= old(self).contents().len(),
            len <= value@.len(),
        ensures
            final(self).contents() == splice(
                old(self).contents(),
                addr as int,
                value@.subrange(0, len as int),
            ),
        final(self).kind() == old(self).kind(),
    ;

    fn read(&self, addr: usize, len: usize, buf: &mut [u8])
        requires
            addr + len <= self.contents().len(),
            len <= old(buf)@.len(),
        ensures
            final(buf)@ == splice(old(buf)@, 0, self.contents().subrange(addr as int, addr + len)),
    ;

    fn size(&self) -> (size: u64)
        ensures
            size == self.contents().len(),
    ;

    fn memory_type(&self) -> (tag: MemoryType)
        ensures
            tag == self.kind(),
    ;
}

/// Plain random-access memory.
pub struct Memory {
    memory: Vec<u8>,
}

impl Memory {
    /// Creates a memory of `size` zero bytes.
    pub fn new(size: usize) -> (memory: Self)
        ensures
            memory.contents() == Seq::new(size as nat, |i: int| 0u8),
    {
        let memory = Self { memory: vec![0u8; size] };
        assert(memory.memory@ =~= Seq::new(size as nat, |i: int| 0u8));
        memory
    }
}

impl Device for Memory {
    closed spec fn contents(&self) -> Seq<u8> {
        self.memory@
    }

    open spec fn kind(&self) -> MemoryType {
        MemoryType::RAM
    }

    fn read_byte(&self, addr: usize) -> (value: u8) {
        load_u8(&self.memory, addr)
    }

    fn write_byte(&mut self, addr: usize, value: u8) {
        store_u8(&mut self.memory, addr, value)
    }

    fn read_half_word(&self, addr: usize) -> (value: u16) {
        load_u16(&self.memory, addr)
    }

    fn write_half_word(&mut self, addr: usize, value: u16) {
        store_u16(&mut self.memory, addr, value)
    }

    fn read_word(&self, addr: usize) -> (value: u32) {
        load_u32(&self.memory, addr)
    }

    fn write_word(&mut self, addr: usize, value: u32) {
        store_u32(&mut self.memory, addr, value)
    }

    fn read_double_word(&self, addr: usize) -> (value: u64) {
        load_u64(&self.memory, addr)
    }

    fn write_double_word(&mut self, addr: usize, value: u64) {
        store_u64(&mut self.memory, addr, value)
    }

    fn write(&mut self, addr: usize, len: usize, value: &[u8]) {
        store_bytes(&mut self.memory, addr, len, value)
    }

    fn read(&self, addr: usize, len: usize, buf: &mut [u8]) {
        load_bytes(&self.memory, addr, len, buf)
    }

    fn size(&self) -> (size: u64) {
        self.memory.len() as u64
    }

    fn memory_type(&self) -> (tag: MemoryType) {
        MemoryType::RAM
    }
}

} // verus!

verus! {

/// An access that no single region of the address space covers.
#[derive(Debug, Clone, Copy, PartialEq, Eq, Structural)]
pub struct AccessFault {
    /// The address at which the access started.
    pub addr: usize,
}

/// Why a region was not added to the address space.
#[derive(Debug, Clone, Copy, PartialEq, Eq, Structural)]
pub enum RegionError {
    /// The region would reach beyond the last address.
    OutOfRange,
    /// The device does not hold as many bytes as the region is long.
    SizeMismatch,
    /// The region would overlap one that is already there.
    Overlap,
}

/// The mathematical value of a region: where it lies and what it holds.
pub struct RegionState {
    pub start: usize,
    pub size: usize,
    pub bytes: Seq<u8>,
}

impl RegionState {
    /// The first address after the region.
    pub open spec fn end(self) -> int {
        self.start + self.size
    }

    /// Whether the region holds `addr` and all of the `len` bytes from it.
    pub open spec fn contains(self, addr: int, len: int) -> bool {
        self.start <= addr < self.end() && addr + len <= self.end()
    }

    /// Whether a region of `size` bytes at `start` would collide with
    /// this one: one of the two starts inside the other.
    pub open spec fn overlaps(self, start: int, size: int) -> bool {
        (self.start <= start < self.end()) || (start <= self.start < start + size)
    }
}

/// The sum of the sizes of `regions`.
pub open spec fn sum_sizes(regions: Seq<RegionState>) -> nat
    decreases regions.len(),
{
    if regions.len() == 0 {
        0
    } else {
        sum_sizes(regions.drop_last()) + regions.last().size as nat
    }
}

/// The mathematical value of the memory unit: its regions in address
/// order, and for each hart that holds a reservation the reserved address.
pub struct MemoryState {
    pub regions: Seq<RegionState>,
    pub reservations: Map<u64, u64>,
}

impl MemoryState {
    /// The invariant of the region map: every region holds as many bytes
    /// as it is long and ends within the address space, and the regions
    /// are in address order without overlap.
    pub open spec fn wf(self) -> bool {
        &&& forall|i: int|
            0 <= i < self.regions.len() ==> (#[trigger] self.regions[i]).bytes.len()
                == self.regions[i].size && self.regions[i].end() <= usize::MAX
        &&& forall|i: int, j: int|
            #![trigger self.regions[i], self.regions[j]]
            0 <= i < j < self.regions.len() ==> self.regions[i].end() <= self.regions[j].start
    }

    /// A unit with one region of `size` zero bytes at address 0 and no
    /// reservation.
    pub open spec fn initial(size: usize) -> MemoryState {
        MemoryState {
            regions: seq![
                RegionState { start: 0, size, bytes: Seq::new(size as nat, |i: int| 0u8) },
            ],
            reservations: Map::empty(),
        }
    }

    /// Whether region `i` exists and covers the `len` bytes from `addr`.
    pub open spec fn holds(self, i: int, addr: int, len: int) -> bool {
        0 <= i < self.regions.len() && self.regions[i].contains(addr, len)
    }

    /// Whether one region covers the `len` bytes from `addr`.
    pub open spec fn covered(self, addr: int, len: int) -> bool {
        exists|i: int| self.holds(i, addr, len)
    }

    /// The region that covers the `len` bytes from `addr`.
    pub open spec fn index_of(self, addr: int, len: int) -> int {
        choose|i: int| self.holds(i, addr, len)
    }

    /// The `len` bytes from `addr`, where one region covers them.
    pub open spec fn window(self, addr: int, len: int) -> Seq<u8> {
        let region = self.regions[self.index_of(addr, len)];
        region.bytes.subrange(addr - region.start, addr - region.start + len)
    }

    /// The unit with `data` stored from `addr` on, where one region covers
    /// that window.
    pub open spec fn patched(self, addr: int, data: Seq<u8>) -> MemoryState {
        let i = self.index_of(addr, data.len() as int);
        let region = self.regions[i];
        MemoryState {
            regions: self.regions.update(
                i,
                RegionState { bytes: splice(region.bytes, addr - region.start, data), ..region },
            ),
            ..self
        }
    }

    /// Where the regions lie: the start and the size of each, in address
    /// order.
    pub open spec fn layout(self) -> Seq<(usize, usize)> {
        Seq::new(self.regions.len(), |i: int| (self.regions[i].start, self.regions[i].size))
    }

    /// The summed size of all regions.
    pub open spec fn total_size(self) -> nat {
        sum_sizes(self.regions)
    }

    /// Whether a region of `size` bytes at `start` would collide with one
    /// of the unit's regions.
    pub open spec fn overlaps(self, start: int, size: int) -> bool {
        exists|i: int| 0 <= i < self.regions.len() && (#[trigger] self.regions[i]).overlaps(start, size)
    }

    /// Whether exactly the first `k` regions start at or below `addr`.
    pub open spec fn is_rank(self, k: int, addr: int) -> bool {
        &&& 0 <= k <= self.regions.len()
        &&& forall|i: int| 0 <= i < k ==> (#[trigger] self.regions[i]).start <= addr
        &&& forall|i: int| k <= i < self.regions.len() ==> (#[trigger] self.regions[i]).start > addr
    }

    /// The number of regions that start at or below `addr`.
    pub open spec fn rank(self, addr: int) -> int {
        choose|k: int| self.is_rank(k, addr)
    }

    /// Why a region of `size` bytes at `start`, backed by a device of
    /// `device_len` bytes, cannot be added; `None` where it can.
    pub open spec fn refusal(self, start: usize, size: usize, device_len: nat) -> Option<RegionError> {
        if start + size > usize::MAX {
            Some(RegionError::OutOfRange)
        } else if device_len != size {
            Some(RegionError::SizeMismatch)
        } else if self.overlaps(start as int, size as int) {
            Some(RegionError::Overlap)
        } else {
            None
        }
    }

    /// The unit with `region` added at its place in address order.
    pub open spec fn with_region(self, region: RegionState) -> MemoryState {
        MemoryState {
            regions: self.regions.insert(self.rank(region.start as int), region),
            ..self
        }
    }

    /// The reservations that are left when every reservation on `addr` is
    /// dropped.
    pub open spec fn reservations_off(self, addr: u64) -> Map<u64, u64> {
        Map::new(
            |hart: u64| self.reservations.contains_key(hart) && self.reservations[hart] != addr,
            |hart: u64| self.reservations[hart],
        )
    }

    /// Whether `hart_id` holds a reservation on `addr`.
    pub open spec fn reserved(self, hart_id: u64, addr: u64) -> bool {
        self.reservations.contains_key(hart_id) && self.reservations[hart_id] == addr
    }
}

/// In a well-formed unit at most one region holds a given address.
pub proof fn lemma_region_unique(state: MemoryState, i: int, j: int, addr: int)
    requires
        state.wf(),
        state.holds(i, addr, 0),
        state.holds(j, addr, 0),
    ensures
        i == j,
{
    if i < j {
        assert(state.regions[i].end() <= state.regions[j].start);
    }
    if j < i {
        assert(state.regions[j].end() <= state.regions[i].start);
    }
}

/// The region found for a covered window is the one that covers it.
pub proof fn lemma_index_of(state: MemoryState, i: int, addr: int, len: int)
    requires
        state.wf(),
        state.holds(i, addr, len),
    ensures
        state.covered(addr, len),
        state.index_of(addr, len) == i,
{
    let j = state.index_of(addr, len);
    lemma_region_unique(state, i, j, addr);
}

/// The rank of an address is determined by the region starts.
pub proof fn lemma_rank(state: MemoryState, k: int, addr: int)
    requires
        state.is_rank(k, addr),
    ensures
        state.rank(addr) == k,
{
    let c = state.rank(addr);
    if c < k {
        assert(state.regions[c].start <= addr);
    }
    if k < c {
        assert(state.regions[k].start <= addr);
    }
}

/// The sizes of the first `n` regions of a well-formed unit add up to no
/// more than where the last of them ends.
pub proof fn lemma_sum_bounded(state: MemoryState, n: int)
    requires
        state.wf(),
        0 <= n <= state.regions.len(),
    ensures
        n == 0 ==> sum_sizes(state.regions.subrange(0, n)) == 0,
        n > 0 ==> sum_sizes(state.regions.subrange(0, n)) <= state.regions[n - 1].end(),
    decreases n,
{
    if n > 0 {
        let prefix = state.regions.subrange(0, n);
        assert(prefix.drop_last() =~= state.regions.subrange(0, n - 1));
        assert(prefix.last() == state.regions[n - 1]);
        lemma_sum_bounded(state, n - 1);
        if n > 1 {
            assert(state.regions[n - 2].end() <= state.regions[n - 1].start);
        }
    }
}

/// A region of the address space: `size` bytes from `start`, backed by
/// `device`.
struct MemoryRegion<D: Device> {
    start: usize,
    size: usize,
    device: D,
}

impl<D: Device> MemoryRegion<D> {
    spec fn state(&self) -> RegionState {
        RegionState { start: self.start, size: self.size, bytes: self.device.contents() }
    }
}

/// One entry of the reservation table.
struct Reservation {
    hart_id: u64,
    addr: u64,
}

/// The memory unit: routes every access to the device whose region covers
/// it, and keeps the load-reserved / store-conditional reservations of the
/// harts that share it.
pub struct MemoryManagementUnit<D: Device> {
    regions: Vec<MemoryRegion<D>>,
    reservations: Vec<Reservation>,
    reserved: Ghost<Map<u64, u64>>,
}

impl<D: Device> View for MemoryManagementUnit<D> {
    type V = MemoryState;

    closed spec fn view(&self) -> MemoryState {
        MemoryState {
            regions: Seq::new(self.regions@.len(), |i: int| self.regions@[i].state()),
            reservations: self.reserved@,
        }
    }
}

impl<D: Device> MemoryManagementUnit<D> {
    /// The representation invariant of the reservation table: it lists
    /// each hart at most once, and lists exactly the reservations of the
    /// view.
    pub closed spec fn table_consistent(&self) -> bool {
        &&& forall|i: int|
            0 <= i < self.reservations@.len() ==> self.reserved@.contains_key(
                (#[trigger] self.reservations@[i]).hart_id,
            ) && self.reserved@[self.reservations@[i].hart_id] == self.reservations@[i].addr
        &&& forall|hart: u64| #[trigger]
            self.reserved@.contains_key(hart) ==> exists|i: int|
                0 <= i < self.reservations@.len() && (#[trigger] self.reservations@[i]).hart_id
                    == hart
        &&& forall|i: int, j: int|
            #![trigger self.reservations@[i], self.reservations@[j]]
            0 <= i < j < self.reservations@.len() ==> self.reservations@[i].hart_id
                != self.reservations@[j].hart_id
    }

    /// The invariant of the memory unit: that of its view, and that of
    /// the reservation table.
    pub open spec fn wf(&self) -> bool {
        &&& self@.wf()
        &&& self.table_consistent()
    }

    /// Creates a unit with no region and no reservation.
    pub fn empty() -> (mmu: Self)
        ensures
            mmu.wf(),
            mmu@.regions == Seq::<RegionState>::empty(),
            mmu@.reservations == Map::<u64, u64>::empty(),
    {
        let mmu = Self { regions: Vec::new(), reservations: Vec::new(), reserved: Ghost(Map::empty()) };
        assert(mmu@.regions =~= Seq::<RegionState>::empty());
        mmu
    }

    /// Returns the number of regions that start at or below `addr`.
    fn upper_bound(&self, addr: usize) -> (k: usize)
        requires
            self.wf(),
        ensures
            self@.is_rank(k as int, addr as int),
            k as int == self@.rank(addr as int),
            k <= self.regions@.len(),
    {
        let mut low: usize = 0;
        let mut high: usize = self.regions.len();
        while low < high
            invariant
                self.wf(),
                0 <= low <= high <= self.regions@.len(),
                forall|i: int| 0 <= i < low ==> (#[trigger] self@.regions[i]).start <= addr,
                forall|i: int|
                    high <= i < self.regions@.len() ==> (#[trigger] self@.regions[i]).start > addr,
            decreases high - low,
        {
            let mid = low + (high - low) / 2;
            if self.regions[mid].start <= addr {
                proof {
                    assert forall|i: int| 0 <= i < mid + 1 implies (#[trigger] self@.regions[i]).start
                        <= addr by {
                        if i < mid {
                            assert(self@.regions[i].end() <= self@.regions[mid as int].start);
                        }
                    }
                }
                low = mid + 1;
            } else {
                proof {
                    assert forall|i: int| mid <= i < self.regions@.len() implies (
                    #[trigger] self@.regions[i]).start > addr by {
                        if mid < i {
                            assert(self@.regions[mid as int].end() <= self@.regions[i].start);
                        }
                    }
                }
                high = mid;
            }
        }
        proof {
            lemma_rank(self@, low as int, addr as int);
        }
        low
    }

    /// Returns whether a region of `size` bytes at `start` would collide
    /// with one that is there. Only the nearest region on each side needs
    /// a look.
    pub fn has_overlap(&self, start: usize, size: usize) -> (overlap: bool)
        requires
            self.wf(),
            start + size <= usize::MAX,
        ensures
            overlap == self@.overlaps(start as int, size as int),
    {
        let end = start + size;
        let k = self.upper_bound(start);
        if k > 0 {
            let before = &self.regions[k - 1];
            assert(self@.regions[k - 1] == before.state());
            if before.start + before.size > start {
                assert(self@.regions[k - 1].overlaps(start as int, size as int));
                return true;
            }
            if before.start == start && size > 0 {
                assert(self@.regions[k - 1].overlaps(start as int, size as int));
                return true;
            }
        }
        if k < self.regions.len() {
            let after = &self.regions[k];
            assert(self@.regions[k as int] == after.state());
            if end > after.start {
                assert(self@.regions[k as int].overlaps(start as int, size as int));
                return true;
            }
        }
        proof {
            assert forall|i: int| 0 <= i < self@.regions.len() implies !(
            #[trigger] self@.regions[i]).overlaps(start as int, size as int) by {
                if i < k {
                    if i < k - 1 {
                        assert(self@.regions[i].end() <= self@.regions[k - 1].start);
                    }
                } else {
                    if i > k {
                        assert(self@.regions[k as int].end() <= self@.regions[i].start);
                    }
                }
            }
        }
        false
    }

    /// Adds a region of `size` bytes at `start`, backed by `device`. The
    /// region is refused, and the unit unchanged, where it would reach
    /// beyond the address space, where the device has another size, or
    /// where it would overlap a region that is there.
    pub fn add_region(&mut self, start: usize, size: usize, device: D) -> (r: Result<
        (),
        RegionError,
    >)
        requires
            old(self).wf(),
        ensures
            final(self).wf(),
            match old(self)@.refusal(start, size, device.contents().len()) {
                Some(e) => r == Err::<(), RegionError>(e) && final(self)@ == old(self)@,
                None => r == Ok::<(), RegionError>(()) && final(self)@ == old(self)@.with_region(
                    RegionState { start, size, bytes: device.contents() },
                ),
            },
    {
        if size > usize::MAX - start {
            return Err(RegionError::OutOfRange);
        }
        if device.size() != size as u64 {
            return Err(RegionError::SizeMismatch);
        }
        if self.has_overlap(start, size) {
            return Err(RegionError::Overlap);
        }
        let k = self.upper_bound(start);
        let ghost region = RegionState { start, size, bytes: device.contents() };
        let entry = MemoryRegion { start, size, device };
        let ghost element = entry;
        self.regions.insert(k, entry);
        proof {
            let before = old(self)@;
            let after = self@;
            old(self).regions@.insert_ensures(k as int, element);
            before.regions.insert_ensures(k as int, region);
            let inserted = before.regions.insert(k as int, region);
            assert(self.regions@.len() == old(self).regions@.len() + 1);
            assert(inserted.len() == before.regions.len() + 1);
            assert forall|i: int| 0 <= i < after.regions.len() implies after.regions[i]
                == inserted[i] by {
                if i < k {
                    assert(self.regions@[i] == old(self).regions@[i]);
                } else if i == k {
                    assert(self.regions@[i].state() == region);
                } else {
                    assert(self.regions@[i] == old(self).regions@[i - 1]);
                }
            }
            assert(after.regions =~= inserted);
            assert forall|i: int| 0 <= i < after.regions.len() implies (
            #[trigger] after.regions[i]).bytes.len() == after.regions[i].size
                && after.regions[i].end() <= usize::MAX by {
                if i < k {
                    assert(after.regions[i] == before.regions[i]);
                } else if i > k {
                    assert(after.regions[i] == before.regions[i - 1]);
                }
            }
            assert(self.reservations@ == old(self).reservations@);
            assert(self.reserved@ == old(self).reserved@);
            assert(self.table_consistent());
            assert forall|i: int| 0 <= i < before.regions.len() implies !(
            #[trigger] before.regions[i]).overlaps(start as int, size as int) by {}
            assert forall|i: int, j: int|
                #![trigger after.regions[i], after.regions[j]]
                0 <= i < j < after.regions.len() implies after.regions[i].end()
                <= after.regions[j].start by {
                if i < k && j == k {
                    assert(!before.regions[i].overlaps(start as int, size as int));
                } else if i == k && j > k {
                    assert(!before.regions[j - 1].overlaps(start as int, size as int));
                    assert(before.regions[j - 1].start > start);
                } else if i < k && j > k {
                    assert(before.regions[i].end() <= before.regions[j - 1].start);
                } else if i > k {
                    assert(before.regions[i - 1].end() <= before.regions[j - 1].start);
                } else {
                    assert(before.regions[i].end() <= before.regions[j].start);
                }
            }
        }
        Ok(())
    }

    /// Returns the region that holds `addr`: the last region that starts
    /// at or below it, if `addr` lies before that region's end.
    pub fn find_region(&self, addr: usize) -> (found: Option<usize>)
        requires
            self.wf(),
        ensures
            match found {
                Some(i) => self@.holds(i as int, addr as int, 0),
                None => !self@.covered(addr as int, 0),
            },
    {
        let k = self.upper_bound(addr);
        if k == 0 {
            return None;
        }
        let region = &self.regions[k - 1];
        assert(self@.regions[k - 1] == region.state());
        if addr < region.start + region.size {
            Some(k - 1)
        } else {
            proof {
                assert forall|i: int| !self@.holds(i, addr as int, 0) by {
                    if 0 <= i < k - 1 {
                        assert(self@.regions[i].end() <= self@.regions[k - 1].start);
                    }
                }
            }
            None
        }
    }

    /// Returns the region that covers the `len` bytes from `addr`, and
    /// the offset of `addr` in it.
    fn locate(&self, addr: usize, len: usize) -> (found: Option<(usize, usize)>)
        requires
            self.wf(),
        ensures
            match found {
                Some((i, offset)) => {
                    &&& self@.holds(i as int, addr as int, len as int)
                    &&& self@.index_of(addr as int, len as int) == i
                    &&& self@.covered(addr as int, len as int)
                    &&& offset == addr - self@.regions[i as int].start
                    &&& offset + len <= self.regions@[i as int].device.contents().len()
                    &&& i < self.regions@.len()
                },
                None => !self@.covered(addr as int, len as int),
            },
    {
        match self.find_region(addr) {
            Some(i) => {
                let region = &self.regions[i];
                assert(self@.regions[i as int] == region.state());
                let offset = addr - region.start;
                if len <= region.size - offset {
                    proof {
                        lemma_index_of(self@, i as int, addr as int, len as int);
                    }
                    Some((i, offset))
                } else {
                    proof {
                        assert forall|j: int| !self@.holds(j, addr as int, len as int) by {
                            if self@.holds(j, addr as int, len as int) {
                                lemma_region_unique(self@, i as int, j, addr as int);
                            }
                        }
                    }
                    None
                }
            },
            None => {
                proof {
                    assert forall|j: int| !self@.holds(j, addr as int, len as int) by {
                        if self@.holds(j, addr as int, len as int) {
                            assert(self@.holds(j, addr as int, 0));
                        }
                    }
                }
                None
            },
        }
    }
}

} // verus!

verus! {

impl<D: Device> MemoryManagementUnit<D> {
    /// Copies the `size` bytes from `addr` to the start of `buf`. The
    /// access faults, and `buf` stays as it is, where no region covers
    /// the window.
    pub fn read(&self, addr: usize, size: usize, buf: &mut [u8]) -> (r: Result<(), AccessFault>)
        requires
            self.wf(),
            size <= old(buf)@.len(),
        ensures
            self@.covered(addr as int, size as int) ==> r == Ok::<(), AccessFault>(())
                && final(buf)@ == splice(old(buf)@, 0, self@.window(addr as int, size as int)),
            !self@.covered(addr as int, size as int) ==> r == Err::<(), AccessFault>(
                AccessFault { addr },
            ) && final(buf)@ == old(buf)@,
    {
        match self.locate(addr, size) {
            Some((i, offset)) => {
                assert(self@.regions[i as int] == self.regions@[i as int].state());
                self.regions[i].device.read(offset, size, buf);
                Ok(())
            },
            None => Err(AccessFault { addr }),
        }
    }

    /// Copies the first `size` bytes of `buf` to `addr`. The access
    /// faults, and memory stays as it is, where no region covers the
    /// window.
    pub fn write(&mut self, addr: usize, size: usize, buf: &[u8]) -> (r: Result<(), AccessFault>)
        requires
            old(self).wf(),
            size <= buf@.len(),
        ensures
            final(self).wf(),
            old(self)@.covered(addr as int, size as int) ==> r == Ok::<(), AccessFault>(())
                && final(self)@ == old(self)@.patched(addr as int, buf@.subrange(0, size as int)),
            !old(self)@.covered(addr as int, size as int) ==> r == Err::<(), AccessFault>(
                AccessFault { addr },
            ) && final(self)@ == old(self)@,
    {
        match self.locate(addr, size) {
            Some((i, offset)) => {
                assert(self@.regions[i as int] == self.regions@[i as int].state());
                self.regions[i].device.write(offset, size, buf);
                proof {
                    self.lemma_patched(*old(self), i as int, addr as int, buf@.subrange(0, size as int));
                }
                Ok(())
            },
            None => Err(AccessFault { addr }),
        }
    }

    /// After the device of region `i` took `data` at `addr`, the unit is
    /// the old one patched, and still well formed.
    proof fn lemma_patched(&self, before: Self, i: int, addr: int, data: Seq<u8>)
        requires
            before.wf(),
            before@.holds(i, addr, data.len() as int),
            self.regions@.len() == before.regions@.len(),
            forall|j: int|
                0 <= j < before.regions@.len() && j != i ==> self.regions@[j] == before.regions@[j],
            self.regions@[i].start == before.regions@[i].start,
            self.regions@[i].size == before.regions@[i].size,
            self.regions@[i].device.contents() == splice(
                before.regions@[i].device.contents(),
                addr - before.regions@[i].start,
                data,
            ),
            self.reservations == before.reservations,
            self.reserved == before.reserved,
        ensures
            self.wf(),
            self@ == before@.patched(addr, data),
    {
        lemma_index_of(before@, i, addr, data.len() as int);
        let region = before@.regions[i];
        let patched = before@.patched(addr, data);
        assert(self@.regions =~= patched.regions);
        assert forall|a: int, b: int|
            #![trigger self@.regions[a], self@.regions[b]]
            0 <= a < b < self@.regions.len() implies self@.regions[a].end()
            <= self@.regions[b].start by {
            assert(before@.regions[a].end() <= before@.regions[b].start);
        }
        assert forall|a: int| 0 <= a < self@.regions.len() implies (
        #[trigger] self@.regions[a]).bytes.len() == self@.regions[a].size && self@.regions[a].end()
            <= usize::MAX by {
            assert(before@.regions[a].bytes.len() == before@.regions[a].size);
        }
        assert(self.reservations@ == before.reservations@);
        assert(self.reserved@ == before.reserved@);
        assert(self.table_consistent());
    }

    /// Reads the byte at `addr`; faults where no region holds it.
    pub fn read_byte(&self, addr: usize) -> (r: Result<u8, AccessFault>)
        requires
            self.wf(),
        ensures
            self@.covered(addr as int, 1) ==> r == Ok::<u8, AccessFault>(
                self@.window(addr as int, 1)[0],
            ),
            !self@.covered(addr as int, 1) ==> r == Err::<u8, AccessFault>(AccessFault { addr }),
    {
        match self.locate(addr, 1) {
            Some((i, offset)) => {
                assert(self@.regions[i as int] == self.regions@[i as int].state());
                Ok(self.regions[i].device.read_byte(offset))
            },
            None => Err(AccessFault { addr }),
        }
    }

    /// Stores `value` at `addr`; faults, and changes nothing, where no
    /// region holds the address.
    pub fn write_byte(&mut self, addr: usize, value: u8) -> (r: Result<(), AccessFault>)
        requires
            old(self).wf(),
        ensures
            final(self).wf(),
            old(self)@.covered(addr as int, 1) ==> r == Ok::<(), AccessFault>(()) && final(self)@
                == old(self)@.patched(addr as int, seq![value]),
            !old(self)@.covered(addr as int, 1) ==> r == Err::<(), AccessFault>(
                AccessFault { addr },
            ) && final(self)@ == old(self)@,
    {
        match self.locate(addr, 1) {
            Some((i, offset)) => {
                assert(self@.regions[i as int] == self.regions@[i as int].state());
                self.regions[i].device.write_byte(offset, value);
                proof {
                    assert(old(self).regions@[i as int].device.contents().update(
                        offset as int,
                        value,
                    ) =~= splice(
                        old(self).regions@[i as int].device.contents(),
                        offset as int,
                        seq![value],
                    ));
                    self.lemma_patched(*old(self), i as int, addr as int, seq![value]);
                }
                Ok(())
            },
            None => Err(AccessFault { addr }),
        }
    }

    /// Reads the little-endian half word at `addr`; faults where no
    /// region covers its two bytes.
    pub fn read_half_word(&self, addr: usize) -> (r: Result<u16, AccessFault>)
        requires
            self.wf(),
        ensures
            self@.covered(addr as int, 2) ==> r == Ok::<u16, AccessFault>(
                le_u16(self@.window(addr as int, 2)),
            ),
            !self@.covered(addr as int, 2) ==> r == Err::<u16, AccessFault>(AccessFault { addr }),
    {
        match self.locate(addr, 2) {
            Some((i, offset)) => {
                assert(self@.regions[i as int] == self.regions@[i as int].state());
                Ok(self.regions[i].device.read_half_word(offset))
            },
            None => Err(AccessFault { addr }),
        }
    }

    /// Stores `value` at `addr`, least significant byte first; faults,
    /// and changes nothing, where no region covers the two bytes.
    pub fn write_half_word(&mut self, addr: usize, value: u16) -> (r: Result<(), AccessFault>)
        requires
            old(self).wf(),
        ensures
            final(self).wf(),
            old(self)@.covered(addr as int, 2) ==> r == Ok::<(), AccessFault>(()) && final(self)@
                == old(self)@.patched(addr as int, le_bytes_u16(value)),
            !old(self)@.covered(addr as int, 2) ==> r == Err::<(), AccessFault>(
                AccessFault { addr },
            ) && final(self)@ == old(self)@,
    {
        match self.locate(addr, 2) {
            Some((i, offset)) => {
                assert(self@.regions[i as int] == self.regions@[i as int].state());
                self.regions[i].device.write_half_word(offset, value);
                proof {
                    self.lemma_patched(*old(self), i as int, addr as int, le_bytes_u16(value));
                }
                Ok(())
            },
            None => Err(AccessFault { addr }),
        }
    }

    /// Reads the little-endian word at `addr`; faults where no region
    /// covers its four bytes.
    pub fn read_word(&self, addr: usize) -> (r: Result<u32, AccessFault>)
        requires
            self.wf(),
        ensures
            self@.covered(addr as int, 4) ==> r == Ok::<u32, AccessFault>(
                le_u32(self@.window(addr as int, 4)),
            ),
            !self@.covered(addr as int, 4) ==> r == Err::<u32, AccessFault>(AccessFault { addr }),
    {
        match self.locate(addr, 4) {
            Some((i, offset)) => {
                assert(self@.regions[i as int] == self.regions@[i as int].state());
                Ok(self.regions[i].device.read_word(offset))
            },
            None => Err(AccessFault { addr }),
        }
    }

    /// Stores `value` at `addr`, least significant byte first; faults,
    /// and changes nothing, where no region covers the four bytes.
    pub fn write_word(&mut self, addr: usize, value: u32) -> (r: Result<(), AccessFault>)
        requires
            old(self).wf(),
        ensures
            final(self).wf(),
            old(self)@.covered(addr as int, 4) ==> r == Ok::<(), AccessFault>(()) && final(self)@
                == old(self)@.patched(addr as int, le_bytes_u32(value)),
            !old(self)@.covered(addr as int, 4) ==> r == Err::<(), AccessFault>(
                AccessFault { addr },
            ) && final(self)@ == old(self)@,
    {
        match self.locate(addr, 4) {
            Some((i, offset)) => {
                assert(self@.regions[i as int] == self.regions@[i as int].state());
                self.regions[i].device.write_word(offset, value);
                proof {
                    self.lemma_patched(*old(self), i as int, addr as int, le_bytes_u32(value));
                }
                Ok(())
            },
            None => Err(AccessFault { addr }),
        }
    }

    /// Reads the little-endian double word at `addr`; faults where no
    /// region covers its eight bytes.
    pub fn read_double_word(&self, addr: usize) -> (r: Result<u64, AccessFault>)
        requires
            self.wf(),
        ensures
            self@.covered(addr as int, 8) ==> r == Ok::<u64, AccessFault>(
                le_u64(self@.window(addr as int, 8)),
            ),
            !self@.covered(addr as int, 8) ==> r == Err::<u64, AccessFault>(AccessFault { addr }),
    {
        match self.locate(addr, 8) {
            Some((i, offset)) => {
                assert(self@.regions[i as int] == self.regions@[i as int].state());
                Ok(self.regions[i].device.read_double_word(offset))
            },
            None => Err(AccessFault { addr }),
        }
    }

    /// Stores `value` at `addr`, least significant byte first; faults,
    /// and changes nothing, where no region covers the eight bytes.
    pub fn write_double_word(&mut self, addr: usize, value: u64) -> (r: Result<(), AccessFault>)
        requires
            old(self).wf(),
        ensures
            final(self).wf(),
            old(self)@.covered(addr as int, 8) ==> r == Ok::<(), AccessFault>(()) && final(self)@
                == old(self)@.patched(addr as int, le_bytes_u64(value)),
            !old(self)@.covered(addr as int, 8) ==> r == Err::<(), AccessFault>(
                AccessFault { addr },
            ) && final(self)@ == old(self)@,
    {
        match self.locate(addr, 8) {
            Some((i, offset)) => {
                assert(self@.regions[i as int] == self.regions@[i as int].state());
                self.regions[i].device.write_double_word(offset, value);
                proof {
                    self.lemma_patched(*old(self), i as int, addr as int, le_bytes_u64(value));
                }
                Ok(())
            },
            None => Err(AccessFault { addr }),
        }
    }

    /// Returns the summed size of all regions.
    pub fn size(&self) -> (total: u64)
        requires
            self.wf(),
        ensures
            total == self@.total_size(),
    {
        let mut total: u64 = 0;
        let mut i: usize = 0;
        while i < self.regions.len()
            invariant
                self.wf(),
                0 <= i <= self.regions@.len(),
                total == sum_sizes(self@.regions.subrange(0, i as int)),
            decreases self.regions@.len() - i,
        {
            proof {
                lemma_sum_bounded(self@, i as int);
                lemma_sum_bounded(self@, i + 1);
                let prefix = self@.regions.subrange(0, i + 1);
                assert(prefix.drop_last() =~= self@.regions.subrange(0, i as int));
                assert(prefix.last() == self.regions@[i as int].state());
            }
            total = total + self.regions[i].size as u64;
            i += 1;
        }
        assert(self@.regions.subrange(0, i as int) =~= self@.regions);
        total
    }
}

} // verus!

verus! {

impl<D: Device> MemoryManagementUnit<D> {
    /// Returns the place of `hart_id` in the reservation table, if it has
    /// one.
    fn find_reservation(&self, hart_id: u64) -> (found: Option<usize>)
        requires
            self.table_consistent(),
        ensures
            match found {
                Some(i) => i < self.reservations@.len() && self.reservations@[i as int].hart_id
                    == hart_id && self@.reservations.contains_key(hart_id)
                    && self@.reservations[hart_id] == self.reservations@[i as int].addr,
                None => !self@.reservations.contains_key(hart_id) && forall|j: int|
                    0 <= j < self.reservations@.len() ==> (#[trigger] self.reservations@[j]).hart_id
                        != hart_id,
            },
    {
        let mut i: usize = 0;
        while i < self.reservations.len()
            invariant
                self.table_consistent(),
                0 <= i <= self.reservations@.len(),
                forall|j: int| 0 <= j < i ==> (#[trigger] self.reservations@[j]).hart_id != hart_id,
            decreases self.reservations@.len() - i,
        {
            if self.reservations[i].hart_id == hart_id {
                assert(self.reserved@.contains_key(self.reservations@[i as int].hart_id));
                return Some(i);
            }
            i += 1;
        }
        None
    }

    /// Records that `hart_id` holds a reservation on `addr`, in place of
    /// the one it held before, if any.
    pub fn set_reservation(&mut self, hart_id: u64, addr: u64)
        requires
            old(self).wf(),
        ensures
            final(self).wf(),
            final(self)@ == (MemoryState {
                reservations: old(self)@.reservations.insert(hart_id, addr),
                ..old(self)@
            }),
    {
        match self.find_reservation(hart_id) {
            Some(i) => {
                self.reservations[i].addr = addr;
            },
            None => {
                self.reservations.push(Reservation { hart_id, addr });
            },
        }
        self.reserved = Ghost(self.reserved@.insert(hart_id, addr));
        proof {
            assert(self.regions@ == old(self).regions@);
            assert(self@.regions =~= old(self)@.regions);
            assert forall|h: u64| #[trigger]
                self.reserved@.contains_key(h) implies exists|i: int|
                0 <= i < self.reservations@.len() && (#[trigger] self.reservations@[i]).hart_id
                    == h by {
                if h != hart_id {
                    let i = choose|i: int|
                        0 <= i < old(self).reservations@.len() && (
                        #[trigger] old(self).reservations@[i]).hart_id == h;
                    assert(self.reservations@[i].hart_id == h);
                } else {
                    if old(self)@.reservations.contains_key(hart_id) {
                        let i = choose|i: int|
                            0 <= i < old(self).reservations@.len() && (
                            #[trigger] old(self).reservations@[i]).hart_id == h;
                        assert(self.reservations@[i].hart_id == h);
                    } else {
                        assert(self.reservations@[self.reservations@.len() - 1].hart_id == h);
                    }
                }
            }
            assert forall|i: int|
                0 <= i < self.reservations@.len() implies self.reserved@.contains_key(
                (#[trigger] self.reservations@[i]).hart_id,
            ) && self.reserved@[self.reservations@[i].hart_id] == self.reservations@[i].addr by {
                if i < old(self).reservations@.len() {
                    assert(old(self).reserved@.contains_key(old(self).reservations@[i].hart_id));
                }
            }
            assert forall|i: int, j: int|
                #![trigger self.reservations@[i], self.reservations@[j]]
                0 <= i < j < self.reservations@.len() implies self.reservations@[i].hart_id
                != self.reservations@[j].hart_id by {
                if j < old(self).reservations@.len() {
                    assert(old(self).reservations@[i].hart_id != old(self).reservations@[j].hart_id);
                } else {
                    assert(old(self).reservations@[i].hart_id != hart_id);
                }
            }
        }
    }

    /// Returns whether `hart_id` holds a reservation on `addr`.
    pub fn check_reservation(&self, hart_id: u64, addr: u64) -> (held: bool)
        requires
            self.wf(),
        ensures
            held == self@.reserved(hart_id, addr),
    {
        match self.find_reservation(hart_id) {
            Some(i) => self.reservations[i].addr == addr,
            None => false,
        }
    }

    /// Drops every hart's reservation on `addr`.
    pub fn clear_reservations_for_addr(&mut self, addr: u64)
        requires
            old(self).wf(),
        ensures
            final(self).wf(),
            final(self)@ == (MemoryState {
                reservations: old(self)@.reservations_off(addr),
                ..old(self)@
            }),
            forall|hart: u64| !final(self)@.reserved(hart, addr),
    {
        let mut kept: Vec<Reservation> = Vec::new();
        let mut i: usize = 0;
        while i < self.reservations.len()
            invariant
                self.table_consistent(),
                self == old(self),
                0 <= i <= self.reservations@.len(),
                forall|k: int| 0 <= k < kept@.len() ==> (#[trigger] kept@[k]).addr != addr,
                forall|k: int|
                    0 <= k < kept@.len() ==> exists|j: int|
                        0 <= j < i && self.reservations@[j] == #[trigger] kept@[k],
                forall|j: int|
                    0 <= j < i && (#[trigger] self.reservations@[j]).addr != addr ==> exists|k: int|
                        0 <= k < kept@.len() && #[trigger] kept@[k] == self.reservations@[j],
                forall|a: int, b: int|
                    #![trigger kept@[a], kept@[b]]
                    0 <= a < b < kept@.len() ==> kept@[a].hart_id != kept@[b].hart_id,
            decreases self.reservations@.len() - i,
        {
            let entry = &self.reservations[i];
            if entry.addr != addr {
                let ghost before = kept@;
                proof {
                    assert forall|a: int| 0 <= a < before.len() implies (#[trigger] before[a]).hart_id
                        != entry.hart_id by {
                        let j = choose|j: int| 0 <= j < i && self.reservations@[j] == before[a];
                        assert(self.reservations@[j].hart_id != self.reservations@[i as int].hart_id);
                    }
                }
                kept.push(Reservation { hart_id: entry.hart_id, addr: entry.addr });
                proof {
                    assert(kept@[before.len() as int] == self.reservations@[i as int]);
                    assert forall|k: int| 0 <= k < kept@.len() implies exists|j: int|
                        0 <= j < i + 1 && self.reservations@[j] == #[trigger] kept@[k] by {
                        if k < before.len() {
                            let j = choose|j: int| 0 <= j < i && self.reservations@[j] == before[k];
                            assert(self.reservations@[j] == kept@[k]);
                        } else {
                            assert(self.reservations@[i as int] == kept@[k]);
                        }
                    }
                    assert forall|j: int|
                        0 <= j < i + 1 && (#[trigger] self.reservations@[j]).addr
                            != addr implies exists|k: int|
                        0 <= k < kept@.len() && #[trigger] kept@[k] == self.reservations@[j] by {
                        if j < i {
                            let k = choose|k: int|
                                0 <= k < before.len() && #[trigger] before[k]
                                    == self.reservations@[j];
                            assert(kept@[k] == self.reservations@[j]);
                        } else {
                            assert(kept@[before.len() as int] == self.reservations@[j]);
                        }
                    }
                }
            }
            i += 1;
        }
        let ghost remaining = self@.reservations_off(addr);
        self.reservations = kept;
        self.reserved = Ghost(remaining);
        proof {
            assert(self.regions@ == old(self).regions@);
            assert(self@.regions =~= old(self)@.regions);
            assert forall|k: int|
                0 <= k < self.reservations@.len() implies self.reserved@.contains_key(
                (#[trigger] self.reservations@[k]).hart_id,
            ) && self.reserved@[self.reservations@[k].hart_id] == self.reservations@[k].addr by {
                let j = choose|j: int|
                    0 <= j < old(self).reservations@.len() && old(self).reservations@[j]
                        == self.reservations@[k];
                assert(old(self).reserved@.contains_key(old(self).reservations@[j].hart_id));
            }
            assert forall|h: u64| #[trigger]
                self.reserved@.contains_key(h) implies exists|k: int|
                0 <= k < self.reservations@.len() && (#[trigger] self.reservations@[k]).hart_id
                    == h by {
                let j = choose|j: int|
                    0 <= j < old(self).reservations@.len() && (
                    #[trigger] old(self).reservations@[j]).hart_id == h;
                assert(old(self).reservations@[j].addr != addr);
                let k = choose|k: int|
                    0 <= k < self.reservations@.len() && #[trigger] self.reservations@[k] == old(
                        self,
                    ).reservations@[j];
                assert(self.reservations@[k].hart_id == h);
            }
        }
    }
}

impl MemoryManagementUnit<Box<dyn Device>> {
    /// Creates a unit with `memory_size` bytes of zeroed RAM at address 0
    /// and no reservation.
    pub fn new(memory_size: usize) -> (mmu: Self)
        ensures
            mmu.wf(),
            mmu@ == MemoryState::initial(memory_size),
    {
        let mut mmu = Self::empty();
        let ram = Memory::new(memory_size);
        let ghost bytes = ram.contents();
        proof {
            assert(mmu@.is_rank(0, 0));
            lemma_rank(mmu@, 0, 0);
            assert(!mmu@.overlaps(0, memory_size as int));
            let region = RegionState { start: 0, size: memory_size, bytes };
            Seq::<RegionState>::empty().insert_ensures(0, region);
            assert(Seq::<RegionState>::empty().insert(0, region) =~= seq![region]);
        }
        let added = mmu.add_region(0, memory_size, Box::new(ram));
        proof {
            assert(mmu@.regions =~= MemoryState::initial(memory_size).regions);
        }
        mmu
    }
}

impl Device for Box<dyn Device> {
    open spec fn contents(&self) -> Seq<u8> {
        (**self).contents()
    }

    open spec fn kind(&self) -> MemoryType {
        (**self).kind()
    }

    fn read_byte(&self, addr: usize) -> (value: u8) {
        (**self).read_byte(addr)
    }

    fn write_byte(&mut self, addr: usize, value: u8) {
        (**self).write_byte(addr, value)
    }

    fn read_half_word(&self, addr: usize) -> (value: u16) {
        (**self).read_half_word(addr)
    }

    fn write_half_word(&mut self, addr: usize, value: u16) {
        (**self).write_half_word(addr, value)
    }

    fn read_word(&self, addr: usize) -> (value: u32) {
        (**self).read_word(addr)
    }

    fn write_word(&mut self, addr: usize, value: u32) {
        (**self).write_word(addr, value)
    }

    fn read_double_word(&self, addr: usize) -> (value: u64) {
        (**self).read_double_word(addr)
    }

    fn write_double_word(&mut self, addr: usize, value: u64) {
        (**self).write_double_word(addr, value)
    }

    fn write(&mut self, addr: usize, len: usize, value: &[u8]) {
        (**self).write(addr, len, value)
    }

    fn read(&self, addr: usize, len: usize, buf: &mut [u8]) {
        (**self).read(addr, len, buf)
    }

    fn size(&self) -> (size: u64) {
        (**self).size()
    }

    fn memory_type(&self) -> (tag: MemoryType) {
        (**self).memory_type()
    }
}

} // verus!

verus! {

/// Storing to a covered window keeps the unit well formed, keeps every
/// region where it is, and leaves the reservations alone.
pub proof fn lemma_patched_shape(state: MemoryState, addr: int, data: Seq<u8>)
    requires
        state.wf(),
        state.covered(addr, data.len() as int),
    ensures
        state.patched(addr, data).wf(),
        state.patched(addr, data).regions.len() == state.regions.len(),
        state.patched(addr, data).reservations == state.reservations,
        forall|i: int, a: int, n: int|
            #![trigger state.patched(addr, data).holds(i, a, n)]
            state.patched(addr, data).holds(i, a, n) == state.holds(i, a, n),
        forall|a: int, n: int|
            #![trigger state.patched(addr, data).covered(a, n)]
            state.patched(addr, data).covered(a, n) == state.covered(a, n),
        state.patched(addr, data).total_size() == state.total_size(),
        state.patched(addr, data).layout() == state.layout(),
{
    let after = state.patched(addr, data);
    let i = state.index_of(addr, data.len() as int);
    assert(state.holds(i, addr, data.len() as int));
    assert forall|k: int| 0 <= k < after.regions.len() implies (#[trigger] after.regions[k]).start
        == state.regions[k].start && after.regions[k].size == state.regions[k].size
        && after.regions[k].bytes.len() == state.regions[k].bytes.len() by {}
    assert forall|a: int, b: int|
        #![trigger after.regions[a], after.regions[b]]
        0 <= a < b < after.regions.len() implies after.regions[a].end() <= after.regions[b].start by {
        assert(state.regions[a].end() <= state.regions[b].start);
    }
    assert forall|k: int, a: int, n: int|
        #![trigger after.holds(k, a, n)]
        after.holds(k, a, n) == state.holds(k, a, n) by {
        if 0 <= k < after.regions.len() {
            assert(after.regions[k].start == state.regions[k].start);
        }
    }
    assert forall|a: int, n: int| #![trigger after.covered(a, n)] after.covered(a, n)
        == state.covered(a, n) by {
        if after.covered(a, n) {
            let k = choose|k: int| after.holds(k, a, n);
            assert(state.holds(k, a, n));
        }
        if state.covered(a, n) {
            let k = choose|k: int| state.holds(k, a, n);
            assert(after.holds(k, a, n));
        }
    }
    lemma_same_sizes(state.regions, after.regions);
    assert(after.layout() =~= state.layout());
}

/// Two lists of regions with the same sizes, one by one, add up to the
/// same total.
proof fn lemma_same_sizes(left: Seq<RegionState>, right: Seq<RegionState>)
    requires
        left.len() == right.len(),
        forall|k: int| 0 <= k < left.len() ==> (#[trigger] left[k]).size == right[k].size,
    ensures
        sum_sizes(left) == sum_sizes(right),
    decreases left.len(),
{
    if left.len() > 0 {
        lemma_same_sizes(left.drop_last(), right.drop_last());
    }
}

/// What was stored is what is read back: after `data` is stored to a
/// covered window, that window holds `data`.
pub proof fn lemma_window_after_patch(state: MemoryState, addr: int, data: Seq<u8>)
    requires
        state.wf(),
        state.covered(addr, data.len() as int),
    ensures
        state.patched(addr, data).covered(addr, data.len() as int),
        state.patched(addr, data).window(addr, data.len() as int) == data,
{
    let after = state.patched(addr, data);
    let len = data.len() as int;
    let i = state.index_of(addr, len);
    assert(state.holds(i, addr, len));
    lemma_patched_shape(state, addr, data);
    assert(after.holds(i, addr, len));
    lemma_index_of(after, i, addr, len);
    let region = state.regions[i];
    lemma_splice_window(region.bytes, addr - region.start, data);
}

/// A store leaves every window alone that it does not touch.
pub proof fn lemma_window_apart(state: MemoryState, addr: int, data: Seq<u8>, other: int, len: int)
    requires
        state.wf(),
        state.covered(addr, data.len() as int),
        state.covered(other, len),
        0 <= len,
        other + len <= addr || addr + data.len() <= other,
    ensures
        state.patched(addr, data).window(other, len) == state.window(other, len),
{
    let after = state.patched(addr, data);
    let i = state.index_of(addr, data.len() as int);
    let j = state.index_of(other, len);
    assert(state.holds(i, addr, data.len() as int));
    assert(state.holds(j, other, len));
    lemma_patched_shape(state, addr, data);
    assert(after.holds(j, other, len));
    lemma_index_of(after, j, other, len);
    if i == j {
        let region = state.regions[i];
        assert(after.window(other, len) =~= state.window(other, len));
    }
}

/// Round trip of a scalar store: a byte, half word, word or double word
/// that is stored to a covered address is read back unchanged from the
/// same address.
pub proof fn lemma_scalar_round_trip(
    state: MemoryState,
    addr: int,
    byte: u8,
    half: u16,
    word: u32,
    double: u64,
)
    requires
        state.wf(),
    ensures
        state.covered(addr, 1) ==> state.patched(addr, seq![byte]).window(addr, 1)[0] == byte,
        state.covered(addr, 2) ==> le_u16(state.patched(addr, le_bytes_u16(half)).window(addr, 2))
            == half,
        state.covered(addr, 4) ==> le_u32(state.patched(addr, le_bytes_u32(word)).window(addr, 4))
            == word,
        state.covered(addr, 8) ==> le_u64(
            state.patched(addr, le_bytes_u64(double)).window(addr, 8),
        ) == double,
{
    lemma_le_round_trip(half, word, double);
    if state.covered(addr, 1) {
        lemma_window_after_patch(state, addr, seq![byte]);
    }
    if state.covered(addr, 2) {
        lemma_window_after_patch(state, addr, le_bytes_u16(half));
    }
    if state.covered(addr, 4) {
        lemma_window_after_patch(state, addr, le_bytes_u32(word));
    }
    if state.covered(addr, 8) {
        lemma_window_after_patch(state, addr, le_bytes_u64(double));
    }
}

/// Little-endian decomposition: after four byte stores to `addr`,
/// `addr + 1`, `addr + 2` and `addr + 3`, the word at `addr` is the four
/// bytes put together, the first the least significant.
pub proof fn lemma_word_from_bytes(state: MemoryState, addr: int, b0: u8, b1: u8, b2: u8, b3: u8)
    requires
        state.wf(),
        state.covered(addr, 4),
    ensures
        ({
            let s1 = state.patched(addr, seq![b0]);
            let s2 = s1.patched(addr + 1, seq![b1]);
            let s3 = s2.patched(addr + 2, seq![b2]);
            let s4 = s3.patched(addr + 3, seq![b3]);
            &&& s4.covered(addr, 4)
            &&& s4.window(addr, 4) == seq![b0, b1, b2, b3]
            &&& le_u32(s4.window(addr, 4)) == b0 + 0x100 * b1 + 0x1_0000 * b2 + 0x100_0000 * b3
        }),
{
    let i = state.index_of(addr, 4);
    assert(state.holds(i, addr, 4));
    assert(state.holds(i, addr, 1));
    assert(state.holds(i, addr + 1, 1));
    assert(state.holds(i, addr + 2, 1));
    assert(state.holds(i, addr + 3, 1));
    let s1 = state.patched(addr, seq![b0]);
    lemma_patched_shape(state, addr, seq![b0]);
    lemma_window_after_patch(state, addr, seq![b0]);
    assert(s1.holds(i, addr + 1, 1));
    let s2 = s1.patched(addr + 1, seq![b1]);
    lemma_patched_shape(s1, addr + 1, seq![b1]);
    lemma_window_after_patch(s1, addr + 1, seq![b1]);
    lemma_window_apart(s1, addr + 1, seq![b1], addr, 1);
    assert(s2.holds(i, addr + 2, 1));
    let s3 = s2.patched(addr + 2, seq![b2]);
    lemma_patched_shape(s2, addr + 2, seq![b2]);
    lemma_window_after_patch(s2, addr + 2, seq![b2]);
    lemma_window_apart(s2, addr + 2, seq![b2], addr, 1);
    lemma_window_apart(s2, addr + 2, seq![b2], addr + 1, 1);
    assert(s3.holds(i, addr + 3, 1));
    let s4 = s3.patched(addr + 3, seq![b3]);
    lemma_patched_shape(s3, addr + 3, seq![b3]);
    lemma_window_after_patch(s3, addr + 3, seq![b3]);
    lemma_window_apart(s3, addr + 3, seq![b3], addr, 1);
    lemma_window_apart(s3, addr + 3, seq![b3], addr + 1, 1);
    lemma_window_apart(s3, addr + 3, seq![b3], addr + 2, 1);
    assert(s4.holds(i, addr, 4));
    lemma_index_of(s4, i, addr, 4);
    lemma_index_of(s4, i, addr, 1);
    lemma_index_of(s4, i, addr + 1, 1);
    lemma_index_of(s4, i, addr + 2, 1);
    lemma_index_of(s4, i, addr + 3, 1);
    lemma_index_of(s3, i, addr, 1);
    lemma_index_of(s3, i, addr + 1, 1);
    lemma_index_of(s3, i, addr + 2, 1);
    lemma_index_of(s2, i, addr, 1);
    lemma_index_of(s2, i, addr + 1, 1);
    lemma_index_of(s1, i, addr, 1);
    let w = s4.window(addr, 4);
    assert(w[0] == s4.window(addr, 1)[0]);
    assert(w[1] == s4.window(addr + 1, 1)[0]);
    assert(w[2] == s4.window(addr + 2, 1)[0]);
    assert(w[3] == s4.window(addr + 3, 1)[0]);
    assert(w =~= seq![b0, b1, b2, b3]);
}

} // verus!

verus! {

/// Whether a region of `layout` covers the `len` bytes from `addr`.
pub open spec fn layout_covers(layout: Seq<(usize, usize)>, addr: int, len: int) -> bool {
    exists|i: int|
        0 <= i < layout.len() && (#[trigger] layout[i]).0 <= addr < layout[i].0 + layout[i].1
            && addr + len <= layout[i].0 + layout[i].1
}

/// Whether a window is covered is a matter of where the regions lie.
pub proof fn lemma_layout_covers(state: MemoryState, addr: int, len: int)
    ensures
        state.covered(addr, len) == layout_covers(state.layout(), addr, len),
{
    let layout = state.layout();
    if state.covered(addr, len) {
        let i = choose|i: int| state.holds(i, addr, len);
        assert(layout[i].0 <= addr < layout[i].0 + layout[i].1);
    }
    if layout_covers(layout, addr, len) {
        let i = choose|i: int|
            0 <= i < layout.len() && (#[trigger] layout[i]).0 <= addr < layout[i].0 + layout[i].1
                && addr + len <= layout[i].0 + layout[i].1;
        assert(state.holds(i, addr, len));
    }
}

/// What a lock around a memory unit guards: the unit's invariant, and
/// where its regions lie. The bytes and the reservations change under
/// the lock; the regions are registered before the unit is shared and
/// stay where they are.
pub struct WellFormed {
    pub layout: Seq<(usize, usize)>,
}

impl<D: Device> vstd::rwlock::RwLockPredicate<MemoryManagementUnit<D>> for WellFormed {
    open spec fn inv(self, unit: MemoryManagementUnit<D>) -> bool {
        unit.wf() && unit@.layout() == self.layout
    }
}

/// A memory unit that several harts share: behind a readers-writer lock
/// that only ever holds a well-formed unit of one layout.
pub type SharedMemory<D> = std::sync::Arc<vstd::rwlock::RwLock<MemoryManagementUnit<D>, WellFormed>>;

impl<D: Device> MemoryManagementUnit<D> {
    /// Puts the unit behind a lock, to be shared. The lock guards the
    /// layout that the unit has now.
    pub fn into_guard(self) -> (guard: SharedMemory<D>)
        requires
            self.wf(),
        ensures
            guard.pred() == (WellFormed { layout: self@.layout() }),
    {
        let ghost layout = self@.layout();
        std::sync::Arc::new(vstd::rwlock::RwLock::new(self, Ghost(WellFormed { layout })))
    }
}

impl MemoryManagementUnit<Box<dyn Device>> {
    /// Creates a unit with `memory_size` bytes of zeroed RAM at address
    /// 0, behind a lock, to be shared. The lock guards that layout: one
    /// region of `memory_size` bytes at address 0.
    pub fn new_guard(memory_size: usize) -> (guard: SharedMemory<Box<dyn Device>>)
        ensures
            guard.pred() == (WellFormed { layout: seq![(0usize, memory_size)] }),
    {
        let unit = Self::new(memory_size);
        proof {
            assert(unit@.layout() =~= seq![(0usize, memory_size)]);
        }
        std::sync::Arc::new(
            vstd::rwlock::RwLock::new(
                unit,
                Ghost(WellFormed { layout: seq![(0usize, memory_size)] }),
            ),
        )
    }
}

/// Copies the first `size` bytes of `buf` to `addr` in a shared unit,
/// under its lock. The access goes through where a region of the unit
/// covers the window, and faults where none does.
pub fn write_shared<D: Device>(
    guard: &vstd::rwlock::RwLock<MemoryManagementUnit<D>, WellFormed>,
    addr: usize,
    size: usize,
    buf: &[u8],
) -> (r: Result<(), AccessFault>)
    requires
        size <= buf@.len(),
    ensures
        layout_covers(guard.pred().layout, addr as int, size as int) ==> r == Ok::<
            (),
            AccessFault,
        >(()),
        !layout_covers(guard.pred().layout, addr as int, size as int) ==> r == Err::<
            (),
            AccessFault,
        >(AccessFault { addr }),
{
    let (mut memory, handle) = guard.acquire_write();
    let ghost found = memory@;
    proof {
        lemma_layout_covers(found, addr as int, size as int);
        if found.covered(addr as int, size as int) {
            lemma_patched_shape(found, addr as int, buf@.subrange(0, size as int));
        }
    }
    let r = memory.write(addr, size, buf);
    handle.release_write(memory);
    r
}

/// Reads the little-endian word at `addr` in a shared unit, under its
/// lock. The access faults where no region of the unit covers the four
/// bytes; where one does, the word is the one found under the lock.
pub fn read_word_shared<D: Device>(
    guard: &vstd::rwlock::RwLock<MemoryManagementUnit<D>, WellFormed>,
    addr: usize,
) -> (r: Result<u32, AccessFault>)
    ensures
        !layout_covers(guard.pred().layout, addr as int, 4) ==> r == Err::<u32, AccessFault>(
            AccessFault { addr },
        ),
        layout_covers(guard.pred().layout, addr as int, 4) ==> exists|memory: MemoryState|
            memory.wf() && memory.layout() == guard.pred().layout && r == Ok::<u32, AccessFault>(
                le_u32(#[trigger] memory.window(addr as int, 4)),
            ),
{
    let handle = guard.acquire_read();
    let memory = handle.borrow();
    let ghost found = memory@;
    proof {
        lemma_layout_covers(found, addr as int, 4);
    }
    let r = memory.read_word(addr);
    handle.release_read();
    proof {
        if found.covered(addr as int, 4) {
            assert(found.wf() && found.layout() == guard.pred().layout && r == Ok::<
                u32,
                AccessFault,
            >(le_u32(found.window(addr as int, 4))));
        }
    }
    r
}

} // verus!
