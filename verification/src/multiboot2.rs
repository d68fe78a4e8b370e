//! Boot-information records handed over by a multiboot2 loader: passive
//! data layouts plus the header checksum rule. Reading the records out of
//! raw boot memory is the embedding kernel's business; the layouts and the
//! validity arithmetic live here.

use vstd::prelude::*;

verus! {

/// The magic value a multiboot2 kernel header starts with.
pub const MULTIBOOT2_HEADER_MAGIC: u32 = 0xE852_50D6;

/// The magic value the bootloader leaves in the register on entry.
pub const MULTIBOOT2_BOOTLOADER_MAGIC: u32 = 0x36D7_6289;

#[allow(dead_code)]
#[derive(Clone, Copy, Debug)]
enum TagType {
    End,
    CmdLine,
    BootLoaderName,
    Module,
    BasicMeminfo,
    BootDev,
    Mmap,
    Vbe,
    Framebuffer,
    ElfSections,
    Apm,
    Efi32,
    Efi64,
    Smbios,
    AcpiOld,
    AcpiNew,
    Network,
    EfiMmap,
    EfiBs,
    Efi32Ih,
    Efi64Ih,
    LoadBaseAddr,
}

#[allow(dead_code)]
#[derive(Clone, Copy, Debug)]
enum HeaderTag {
    End,
    InformationRequest,
    Address,
    EntryAddress,
    ConsoleFlags,
    Framebuffer,
    ModuleAlign,
    EfiBs,
    EntryAddressEfi32,
    EntryAddressEfi64,
    Relocatable,
}

/// Instruction-set architecture field of the kernel header.
#[derive(Clone, Copy, Debug, PartialEq, Eq, Structural)]
pub enum Architecture {
    I386,
    MIPS32,
}

/// The numeric code the header stores for an architecture.
pub open spec fn spec_architecture_code(a: Architecture) -> u32 {
    match a {
        Architecture::I386 => 0,
        Architecture::MIPS32 => 4,
    }
}

impl Architecture {
    pub fn code(self) -> (r: u32)
        ensures
            r == spec_architecture_code(self),
    {
        match self {
            Architecture::I386 => 0,
            Architecture::MIPS32 => 4,
        }
    }
}

#[allow(dead_code)]
#[derive(Clone, Copy, Debug)]
enum LoadPreference {
    NoPreference,
    Low,
    High,
}

#[allow(dead_code)]
#[derive(Clone, Copy, Debug)]
enum ConsoleFlags {
    ConsoleRequired,
    EgaTextSupported,
}

/// The header's magic, architecture, length and checksum must sum to zero
/// modulo 2^32.
pub open spec fn spec_header_checksum_ok(h: MultibootHeader) -> bool {
    (h.magic + spec_architecture_code(h.architecture) + h.header_length + h.checksum) % 0x1_0000_0000
        == 0
}

/// The kernel header a multiboot2 loader searches for.
#[derive(Clone, Copy, Debug)]
pub struct MultibootHeader {
    /// Must be `MULTIBOOT2_HEADER_MAGIC`.
    pub magic: u32,
    pub architecture: Architecture,
    pub header_length: u32,
    /// Chosen so the four fields sum to zero modulo 2^32.
    pub checksum: u32,
}

impl MultibootHeader {
    /// Whether the header carries the right magic and a checksum that
    /// balances the other three fields modulo 2^32.
    pub fn is_valid(&self) -> (r: bool)
        ensures
            r == (self.magic == MULTIBOOT2_HEADER_MAGIC && spec_header_checksum_ok(*self)),
    {
        let sum = self.magic.wrapping_add(self.architecture.code()).wrapping_add(
            self.header_length,
        ).wrapping_add(self.checksum);
        proof {
            let m = self.magic;
            let a = spec_architecture_code(self.architecture);
            let l = self.header_length;
            let c = self.checksum;
            assert(((((m.wrapping_add(a)).wrapping_add(l)).wrapping_add(c)) == 0) == ((m + a + l
                + c) % 0x1_0000_0000 == 0)) by (bit_vector);
        }
        self.magic == MULTIBOOT2_HEADER_MAGIC && sum == 0
    }
}

#[allow(dead_code)]
#[derive(Debug)]
pub struct MultibootHeaderTag {
    typ: HeaderTag,
    flags: u16,
    size: u32,
}

#[allow(dead_code)]
#[derive(Debug)]
pub struct MultibootHeaderTagInformationRequest {
    typ: HeaderTag,
    flags: u16,
    size: u32,
    requests: Vec<u32>,
}

#[allow(dead_code)]
#[derive(Debug)]
pub struct MultibootHeaderTagAddress {
    typ: HeaderTag,
    flags: u16,
    size: u32,
    header_addr: u32,
    load_addr: u32,
    load_end_addr: u32,
    bss_end_addr: u32,
}

#[allow(dead_code)]
#[derive(Debug)]
pub struct MultibootHeaderTagEntryAddress {
    typ: HeaderTag,
    flags: u16,
    size: u32,
    entry_addr: u32,
}

#[allow(dead_code)]
#[derive(Debug)]
pub struct MultibootHeaderTagConsoleFlags {
    typ: HeaderTag,
    flags: u16,
    size: u32,
    console_flags: ConsoleFlags,
}

#[allow(dead_code)]
#[derive(Debug)]
pub struct MultibootHeaderTagFramebuffer {
    typ: HeaderTag,
    flags: u16,
    size: u32,
    width: u32,
    height: u32,
    depth: u32,
}

#[allow(dead_code)]
#[derive(Debug)]
pub struct MultibootHeaderTagModuleAlign {
    typ: HeaderTag,
    flags: u16,
    size: u32,
}

#[allow(dead_code)]
#[derive(Debug)]
pub struct MultibootHeaderTagRelocatable {
    typ: HeaderTag,
    flags: u16,
    size: u32,
    min_addr: u32,
    max_addr: u32,
    align: u32,
    preference: u32,
}

#[allow(dead_code)]
#[derive(Clone, Copy, Debug)]
pub struct MultibootColor {
    red: u8,
    green: u8,
    blue: u8,
}

#[allow(dead_code)]
#[derive(Clone, Copy, Debug)]
enum Memory {
    Available,
    Reserved,
    AcpiReclaimable,
    Nvs,
    Badram,
}

#[allow(dead_code)]
#[derive(Debug)]
pub struct MultibootMmapEntry {
    addr: u64,
    len: u64,
    typ: u32,
    zero: u32,
}

#[allow(dead_code)]
#[derive(Debug)]
pub struct MultibootTag {
    typ: TagType,
    size: u32,
}

#[allow(dead_code)]
#[derive(Debug)]
pub struct MultibootTagString {
    typ: TagType,
    size: u32,
    string: &'static str,
}

#[allow(dead_code)]
#[derive(Debug)]
pub struct MultibootTagModule {
    typ: TagType,
    size: u32,
    mod_start: u32,
    mod_end: u32,
    cmdline: &'static str,
}

#[allow(dead_code)]
#[derive(Debug)]
pub struct MultibootTagBasicMeminfo {
    typ: TagType,
    size: u32,
    mem_lower: u32,
    mem_upper: u32,
}

#[allow(dead_code)]
#[derive(Debug)]
pub struct MultibootTagBootdev {
    typ: TagType,
    size: u32,
    biosdev: u32,
    slice: u32,
    part: u32,
}

#[allow(dead_code)]
#[derive(Debug)]
pub struct MultibootTagMmap {
    typ: TagType,
    size: u32,
    entry_size: u32,
    entry_version: u32,
    entries: Vec<MultibootMmapEntry>,
}

#[allow(dead_code)]
#[derive(Debug)]
pub struct MultibootVbeInfoBlock {
    external_specification: [u8; 512],
}

#[allow(dead_code)]
#[derive(Debug)]
pub struct MultibootVbeModeInfoBlock {
    external_specification: [u8; 256],
}

#[allow(dead_code)]
#[derive(Debug)]
pub struct MultibootTagVbe {
    typ: TagType,
    size: u32,
    vbe_mode: u16,
    vbe_interface_seg: u16,
    vbe_interface_off: u16,
    vbe_interface_len: u16,
    vbe_control_info: MultibootVbeInfoBlock,
    vbe_mode_info: MultibootVbeModeInfoBlock,
}

#[allow(dead_code)]
#[derive(Clone, Copy, Debug)]
enum FrameBufferType {
    Indexed,
    Rgb,
    EgaText,
}

#[allow(dead_code)]
#[derive(Debug)]
pub struct MultibootTagFramebufferCommon {
    typ: TagType,
    size: u32,
    framebuffer_addr: u64,
    framebuffer_pitch: u32,
    framebuffer_width: u32,
    framebuffer_height: u32,
    framebuffer_bpp: u8,
    framebuffer_type: FrameBufferType,
    reserved: u16,
}

#[allow(dead_code)]
#[derive(Clone, Copy, Debug)]
pub struct MultibootFramebufferColorPalette1 {
    framebuffer_palette_num_colors: u16,
    framebuffer_palette: MultibootColor,
}

#[allow(dead_code)]
#[derive(Clone, Copy, Debug)]
pub struct MultibootFramebufferColorPalette2 {
    framebuffer_red_field_position: u8,
    framebuffer_red_mask_size: u8,
    framebuffer_green_field_position: u8,
    framebuffer_green_mask_size: u8,
    framebuffer_blue_field_position: u8,
    framebuffer_blue_mask_size: u8,
}

/// Which palette description a framebuffer tag carries.
#[allow(dead_code)]
#[derive(Clone, Copy, Debug)]
pub enum MultibootFramebufferPalette {
    Indexed(MultibootFramebufferColorPalette1),
    Direct(MultibootFramebufferColorPalette2),
}

#[allow(dead_code)]
#[derive(Debug)]
pub struct MultibootTagFramebuffer {
    common: MultibootTagFramebufferCommon,
    palette: MultibootFramebufferPalette,
}

#[allow(dead_code)]
#[derive(Debug)]
pub struct MultibootTagElfSections {
    typ: TagType,
    size: u32,
    num: u32,
    entsize: u32,
    shndx: u32,
    sections: &'static str,
}

#[allow(dead_code)]
#[derive(Debug)]
pub struct MultibootTagApm {
    typ: TagType,
    size: u32,
    version: u16,
    cseg: u16,
    offset: u32,
    cseg_16: u16,
    dseg: u16,
    flags: u16,
    cseg_len: u16,
    cseg_16_len: u16,
    dseg_len: u16,
}

#[allow(dead_code)]
#[derive(Debug)]
pub struct MultibootTagEFI32 {
    typ: TagType,
    size: u32,
    pointer: u32,
}

#[allow(dead_code)]
#[derive(Debug)]
pub struct MultibootTagEFI64 {
    typ: TagType,
    size: u32,
    pointer: u32,
}

#[allow(dead_code)]
#[derive(Debug)]
pub struct MultibootTagSmbios {
    typ: TagType,
    size: u32,
    major: u8,
    minor: u8,
    reserved: [u8; 6],
    tables: [u8; 0],
}

#[allow(dead_code)]
#[derive(Debug)]
pub struct MultibootTagOldAcpi {
    typ: TagType,
    size: u32,
    rsdp: [u8; 0],
}

#[allow(dead_code)]
#[derive(Debug)]
pub struct MultibootTagNewAcpi {
    typ: TagType,
    size: u32,
    rsdp: [u8; 0],
}

#[allow(dead_code)]
#[derive(Debug)]
pub struct MultibootTagNetwork {
    typ: TagType,
    size: u32,
    dhcpack: [u8; 0],
}

#[allow(dead_code)]
#[derive(Debug)]
pub struct MultibootTagEfiMmap {
    typ: TagType,
    size: u32,
    descr_size: u32,
    descr_vers: u32,
    efi_mmap: [u8; 0],
}

#[allow(dead_code)]
#[derive(Debug)]
pub struct MultibootTagEfi32Ih {
    typ: TagType,
    size: u32,
    pointer: u32,
}

#[allow(dead_code)]
#[derive(Debug)]
pub struct MultibootTagEfi64Ih {
    typ: TagType,
    size: u32,
    pointer: u64,
}

#[allow(dead_code)]
#[derive(Debug)]
pub struct MultibootTagLoadBaseAddr {
    typ: TagType,
    size: u32,
    load_base_addr: u32,
}

} // verus!
