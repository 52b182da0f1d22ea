use crate::emulator::devices::RV64Device;
use crate::emulator::state::memory::{
    load_bytes, load_u16, load_u32, load_u64, load_u8, store_bytes, store_u16, store_u32,
    store_u64, store_u8, Device, MemoryType,
};
use vstd::prelude::*;

verus! {

/// A framebuffer without a display: the bytes written to it can be read
/// back, and nothing else happens.
pub struct SimpleFramebufferDevice {
    framebuffer: Vec<u8>,
}

impl SimpleFramebufferDevice {
    /// Creates a framebuffer of `size` zero bytes.
    pub fn new(size: usize) -> (device: SimpleFramebufferDevice)
        ensures
            device.contents() == Seq::new(size as nat, |i: int| 0u8),
    {
        let device = Self { framebuffer: vec![0u8; size] };
        assert(device.framebuffer@ =~= Seq::new(size as nat, |i: int| 0u8));
        device
    }
}

impl RV64Device for SimpleFramebufferDevice {
    fn init(&self) {
    }

    fn destroy(&self) {
    }
}

impl Device for SimpleFramebufferDevice {
    closed spec fn contents(&self) -> Seq<u8> {
        self.framebuffer@
    }

    open spec fn kind(&self) -> MemoryType {
        MemoryType::IO
    }

    fn read_byte(&self, addr: usize) -> (value: u8) {
        load_u8(&self.framebuffer, addr)
    }

    fn write_byte(&mut self, addr: usize, value: u8) {
        store_u8(&mut self.framebuffer, addr, value)
    }

    fn read_half_word(&self, addr: usize) -> (value: u16) {
        load_u16(&self.framebuffer, addr)
    }

    fn write_half_word(&mut self, addr: usize, value: u16) {
        store_u16(&mut self.framebuffer, addr, value)
    }

    fn read_word(&self, addr: usize) -> (value: u32) {
        load_u32(&self.framebuffer, addr)
    }

    fn write_word(&mut self, addr: usize, value: u32) {
        store_u32(&mut self.framebuffer, addr, value)
    }

    fn read_double_word(&self, addr: usize) -> (value: u64) {
        load_u64(&self.framebuffer, addr)
    }

    fn write_double_word(&mut self, addr: usize, value: u64) {
        store_u64(&mut self.framebuffer, addr, value)
    }

    fn write(&mut self, addr: usize, len: usize, value: &[u8]) {
        store_bytes(&mut self.framebuffer, addr, len, value)
    }

    fn read(&self, addr: usize, len: usize, buf: &mut [u8]) {
        load_bytes(&self.framebuffer, addr, len, buf)
    }

    fn size(&self) -> (size: u64) {
        self.framebuffer.len() as u64
    }

    fn memory_type(&self) -> (tag: MemoryType) {
        MemoryType::IO
    }
}

} // verus!
