//! The STM32 digital camera interface (DCMI): its configuration, the register words
//! that start, watch and stop a snapshot capture, and the interrupt handling.

use vstd::prelude::*;

verus! {

/// `CR.CAPTURE`: capture enabled.
pub const CR_CAPTURE: u32 = 0x0001;

/// `CR.CM`: capture mode (set: snapshot, one frame).
pub const CR_CM: u32 = 0x0002;

/// `CR.ESS`: embedded synchronisation codes in place of the sync pins.
pub const CR_ESS: u32 = 0x0010;

/// `CR.PCKPOL`: pixel clock polarity (set: rising edge).
pub const CR_PCKPOL: u32 = 0x0020;

/// `CR.HSPOL`: level of HSYNC while data is not valid (set: high).
pub const CR_HSPOL: u32 = 0x0040;

/// `CR.VSPOL`: level of VSYNC while data is not valid (set: high).
pub const CR_VSPOL: u32 = 0x0080;

/// `CR.FCRC`: frame capture rate control, two bits.
pub const CR_FCRC: u32 = 0x0300;

/// Position of `CR.EDM`, the extended data mode (bus width), two bits.
pub const CR_EDM_SHIFT: u32 = 10;

/// `CR.EDM`.
pub const CR_EDM: u32 = 0x0c00;

/// `CR.ENABLE`: the interface is enabled.
pub const CR_ENABLE: u32 = 0x4000;

/// The `CR` fields that configuring the interface writes.
pub const CR_CONFIG_FIELDS: u32 = 0x0ff2;

/// Frame captured: bit 0 of `RIS`, `IER` and `ICR`.
pub const IRQ_FRAME: u32 = 0x1;

/// Overrun: bit 1 of `RIS`, `IER` and `ICR`.
pub const IRQ_OVR: u32 = 0x2;

/// Synchronisation error: bit 2 of `RIS`, `IER` and `ICR`.
pub const IRQ_ERR: u32 = 0x4;

/// The three interrupt sources that a capture uses.
pub const IRQ_CAPTURE: u32 = 0x7;

/// The level on the VSync pin when the data is not valid on the parallel interface.
#[derive(Debug, Eq, PartialEq, Clone, Copy, Structural)]
pub enum VSyncDataInvalidLevel {
    Low,
    High,
}

/// The level on the HSync pin when the data is not valid on the parallel interface.
#[derive(Debug, Eq, PartialEq, Clone, Copy, Structural)]
pub enum HSyncDataInvalidLevel {
    Low,
    High,
}

/// The edge of the pixel clock on which data is sampled.
#[derive(Debug, Eq, PartialEq, Clone, Copy, Structural)]
pub enum PixelClockPolarity {
    RisingEdge,
    FallingEdge,
}

/// Why a capture failed.
#[derive(Debug, Eq, PartialEq, Copy, Clone, Structural)]
#[non_exhaustive]
pub enum Error {
    Overrun,
    PeripheralError,
}

/// Configuration of the interface.
#[derive(Debug, Eq, PartialEq, Clone, Copy, Structural)]
#[non_exhaustive]
pub struct Config {
    pub vsync_level: VSyncDataInvalidLevel,
    pub hsync_level: HSyncDataInvalidLevel,
    pub pixclk_polarity: PixelClockPolarity,
}

impl Default for Config {
    /// VSync high and HSync low while data is invalid; data sampled on the rising edge.
    fn default() -> (r: Self)
        ensures
            r.vsync_level == VSyncDataInvalidLevel::High,
            r.hsync_level == HSyncDataInvalidLevel::Low,
            r.pixclk_polarity == PixelClockPolarity::RisingEdge,
    {
        Self {
            vsync_level: VSyncDataInvalidLevel::High,
            hsync_level: HSyncDataInvalidLevel::Low,
            pixclk_polarity: PixelClockPolarity::RisingEdge,
        }
    }
}

/// `mask` if `on`, else no bits.
pub open spec fn flag(on: bool, mask: u32) -> u32 {
    if on {
        mask
    } else {
        0
    }
}

/// `word` with the bits of `mask` set if `on`, cleared otherwise.
pub open spec fn with_flag(word: u32, mask: u32, on: bool) -> u32 {
    if on {
        word | mask
    } else {
        word & !mask
    }
}

/// `CR` after configuring: snapshot mode, the given synchronisation, polarities and
/// extended data mode, every frame captured; all other bits as in `cr`.
pub open spec fn configured_cr(cr: u32, config: Config, embedded_sync: bool, edm: u8) -> u32 {
    (cr & !CR_CONFIG_FIELDS) | CR_CM | flag(embedded_sync, CR_ESS) | flag(
        config.pixclk_polarity == PixelClockPolarity::RisingEdge,
        CR_PCKPOL,
    ) | flag(config.vsync_level == VSyncDataInvalidLevel::High, CR_VSPOL) | flag(
        config.hsync_level == HSyncDataInvalidLevel::High,
        CR_HSPOL,
    ) | ((edm as u32) << CR_EDM_SHIFT)
}

/// Sets or clears the bits of `mask` in `word`.
fn set_flag(word: u32, mask: u32, on: bool) -> (r: u32)
    ensures
        r == with_flag(word, mask, on),
{
    if on {
        word | mask
    } else {
        word & !mask
    }
}

proof fn lemma_configured_cr(cr: u32, ess: bool, pck: bool, vs: bool, hs: bool, edm: u32)
    requires
        edm < 4,
    ensures
        ({
            let c1 = with_flag(cr, CR_CM, true);
            let c2 = with_flag(c1, CR_ESS, ess);
            let c3 = with_flag(c2, CR_PCKPOL, pck);
            let c4 = with_flag(c3, CR_VSPOL, vs);
            let c5 = with_flag(c4, CR_HSPOL, hs);
            let c6 = c5 & !CR_FCRC;
            let c7 = (c6 & !CR_EDM) | (edm << CR_EDM_SHIFT);
            c7 == (cr & !CR_CONFIG_FIELDS) | CR_CM | flag(ess, CR_ESS) | flag(pck, CR_PCKPOL) | flag(
                vs,
                CR_VSPOL,
            ) | flag(hs, CR_HSPOL) | (edm << CR_EDM_SHIFT)
        }),
{
    let fe = flag(ess, CR_ESS);
    let fp = flag(pck, CR_PCKPOL);
    let fv = flag(vs, CR_VSPOL);
    let fh = flag(hs, CR_HSPOL);
    let c1 = cr | 0x0002u32;
    let c2 = with_flag(c1, CR_ESS, ess);
    let c3 = with_flag(c2, CR_PCKPOL, pck);
    let c4 = with_flag(c3, CR_VSPOL, vs);
    let c5 = with_flag(c4, CR_HSPOL, hs);
    assert(c2 == (c1 & !0x0010u32) | fe) by (bit_vector)
        requires
            c2 == (if ess { c1 | 0x0010u32 } else { c1 & !0x0010u32 }),
            fe == (if ess { 0x0010u32 } else { 0u32 }),
    ;
    assert(c3 == (c2 & !0x0020u32) | fp) by (bit_vector)
        requires
            c3 == (if pck { c2 | 0x0020u32 } else { c2 & !0x0020u32 }),
            fp == (if pck { 0x0020u32 } else { 0u32 }),
    ;
    assert(c4 == (c3 & !0x0080u32) | fv) by (bit_vector)
        requires
            c4 == (if vs { c3 | 0x0080u32 } else { c3 & !0x0080u32 }),
            fv == (if vs { 0x0080u32 } else { 0u32 }),
    ;
    assert(c5 == (c4 & !0x0040u32) | fh) by (bit_vector)
        requires
            c5 == (if hs { c4 | 0x0040u32 } else { c4 & !0x0040u32 }),
            fh == (if hs { 0x0040u32 } else { 0u32 }),
    ;
    assert(((((c5 & !0x0300u32) & !0x0c00u32) | (edm << 10u32)) == (cr & !0x0ff2u32) | 0x0002u32
        | fe | fp | fv | fh | (edm << 10u32))) by (bit_vector)
        requires
            edm < 4,
            c1 == cr | 0x0002u32,
            c2 == (c1 & !0x0010u32) | fe,
            c3 == (c2 & !0x0020u32) | fp,
            c4 == (c3 & !0x0080u32) | fv,
            c5 == (c4 & !0x0040u32) | fh,
            fe == 0x0010u32 || fe == 0,
            fp == 0x0020u32 || fp == 0,
            fv == 0x0080u32 || fv == 0,
            fh == 0x0040u32 || fh == 0,
    ;
}

/// `CR` with the interface and the capture both enabled or both disabled; all other
/// bits as in `cr`.
pub open spec fn toggled_cr(cr: u32, enable: bool) -> u32 {
    with_flag(cr, CR_ENABLE | CR_CAPTURE, enable)
}

/// `IER` after the interrupt handler ran on the raised sources `ris`: each of the
/// three capture interrupts that is raised is disabled; all other bits as in `ier`.
pub open spec fn ier_after_interrupt(ris: u32, ier: u32) -> u32 {
    ier & !(ris & IRQ_CAPTURE)
}

/// Where a capture stands after a look at the raised interrupt sources.
#[derive(Debug, Eq, PartialEq, Clone, Copy, Structural)]
pub enum CaptureStatus {
    /// Nothing happened yet.
    Pending,
    /// A frame was captured.
    Captured,
    /// The capture failed.
    Failed(Error),
}

/// The outcome of one look at the raised interrupt sources during a capture: the
/// status, and the word to write to `ICR` (if any) to clear the source that ended it.
#[derive(Debug, Eq, PartialEq, Clone, Copy, Structural)]
pub struct CapturePoll {
    pub status: CaptureStatus,
    pub clear: Option<u32>,
}

/// The outcome of a look at `ris` during a capture: an error ends it first, then an
/// overrun, then a captured frame.
pub open spec fn capture_poll_spec(ris: u32) -> CapturePoll {
    if ris & IRQ_ERR != 0 {
        CapturePoll { status: CaptureStatus::Failed(Error::PeripheralError), clear: Some(IRQ_ERR) }
    } else if ris & IRQ_OVR != 0 {
        CapturePoll { status: CaptureStatus::Failed(Error::Overrun), clear: Some(IRQ_OVR) }
    } else if ris & IRQ_FRAME != 0 {
        CapturePoll { status: CaptureStatus::Captured, clear: Some(IRQ_FRAME) }
    } else {
        CapturePoll { status: CaptureStatus::Pending, clear: None }
    }
}

/// The configuration of one DCMI driver: what it writes to the control register.
pub struct Dcmi {
    config: Config,
    use_embedded_synchronization: bool,
    edm: u8,
}

impl Dcmi {
    /// The configuration that the driver was created with.
    pub closed spec fn config_view(&self) -> Config {
        self.config
    }

    /// Whether the driver uses embedded synchronisation codes.
    pub closed spec fn embedded_sync_view(&self) -> bool {
        self.use_embedded_synchronization
    }

    /// The extended data mode (bus width) of the driver.
    pub closed spec fn edm_view(&self) -> u8 {
        self.edm
    }

    #[verifier::type_invariant]
    spec fn inv(self) -> bool {
        self.edm < 4
    }

    /// 8-bit data bus, synchronisation on the HSYNC and VSYNC pins.
    pub fn new_8bit(config: Config) -> (r: Self)
        ensures
            r.config_view() == config,
            !r.embedded_sync_view(),
            r.edm_view() == 0,
    {
        Self::new_inner(config, false, 0b00)
    }

    /// 10-bit data bus, synchronisation on the HSYNC and VSYNC pins.
    pub fn new_10bit(config: Config) -> (r: Self)
        ensures
            r.config_view() == config,
            !r.embedded_sync_view(),
            r.edm_view() == 1,
    {
        Self::new_inner(config, false, 0b01)
    }

    /// 12-bit data bus, synchronisation on the HSYNC and VSYNC pins.
    pub fn new_12bit(config: Config) -> (r: Self)
        ensures
            r.config_view() == config,
            !r.embedded_sync_view(),
            r.edm_view() == 2,
    {
        Self::new_inner(config, false, 0b10)
    }

    /// 14-bit data bus, synchronisation on the HSYNC and VSYNC pins.
    pub fn new_14bit(config: Config) -> (r: Self)
        ensures
            r.config_view() == config,
            !r.embedded_sync_view(),
            r.edm_view() == 3,
    {
        Self::new_inner(config, false, 0b11)
    }

    /// 8-bit data bus, embedded synchronisation codes.
    pub fn new_es_8bit(config: Config) -> (r: Self)
        ensures
            r.config_view() == config,
            r.embedded_sync_view(),
            r.edm_view() == 0,
    {
        Self::new_inner(config, true, 0b00)
    }

    /// 10-bit data bus, embedded synchronisation codes.
    pub fn new_es_10bit(config: Config) -> (r: Self)
        ensures
            r.config_view() == config,
            r.embedded_sync_view(),
            r.edm_view() == 1,
    {
        Self::new_inner(config, true, 0b01)
    }

    /// 12-bit data bus, embedded synchronisation codes.
    pub fn new_es_12bit(config: Config) -> (r: Self)
        ensures
            r.config_view() == config,
            r.embedded_sync_view(),
            r.edm_view() == 2,
    {
        Self::new_inner(config, true, 0b10)
    }

    /// 14-bit data bus, embedded synchronisation codes.
    pub fn new_es_14bit(config: Config) -> (r: Self)
        ensures
            r.config_view() == config,
            r.embedded_sync_view(),
            r.edm_view() == 3,
    {
        Self::new_inner(config, true, 0b11)
    }

    fn new_inner(config: Config, use_embedded_synchronization: bool, edm: u8) -> (r: Self)
        requires
            edm < 4,
        ensures
            r.config_view() == config,
            r.embedded_sync_view() == use_embedded_synchronization,
            r.edm_view() == edm,
    {
        Self { config, use_embedded_synchronization, edm }
    }

    /// The value of `CR` after the driver configured the interface, where it held `cr`.
    pub fn configure_cr(&self, cr: u32) -> (r: u32)
        ensures
            r == configured_cr(cr, self.config_view(), self.embedded_sync_view(), self.edm_view()),
    {
        proof {
            use_type_invariant(self);
        }
        let edm = self.edm as u32;
        let mut r = set_flag(cr, CR_CM, true);
        r = set_flag(r, CR_ESS, self.use_embedded_synchronization);
        r = set_flag(r, CR_PCKPOL, self.config.pixclk_polarity == PixelClockPolarity::RisingEdge);
        r = set_flag(r, CR_VSPOL, self.config.vsync_level == VSyncDataInvalidLevel::High);
        r = set_flag(r, CR_HSPOL, self.config.hsync_level == HSyncDataInvalidLevel::High);
        r = r & !CR_FCRC;
        r = (r & !CR_EDM) | (edm << CR_EDM_SHIFT);
        proof {
            lemma_configured_cr(
                cr,
                self.use_embedded_synchronization,
                self.config.pixclk_polarity == PixelClockPolarity::RisingEdge,
                self.config.vsync_level == VSyncDataInvalidLevel::High,
                self.config.hsync_level == HSyncDataInvalidLevel::High,
                edm,
            );
        }
        r
    }

    /// The value of `CR` after enabling (or disabling) the interface and the capture,
    /// where it held `cr`.
    pub fn toggle(cr: u32, enable: bool) -> (r: u32)
        ensures
            r == toggled_cr(cr, enable),
    {
        set_flag(cr, CR_ENABLE | CR_CAPTURE, enable)
    }

    /// The value of `IER` after enabling the error, overrun and frame interrupts,
    /// where it held `ier`.
    pub fn enable_irqs(ier: u32) -> (r: u32)
        ensures
            r == ier | IRQ_CAPTURE,
    {
        let r = ier | IRQ_OVR | IRQ_ERR | IRQ_FRAME;
        assert(((ier | 0x2u32) | 0x4u32) | 0x1u32 == ier | 0x7u32) by (bit_vector);
        r
    }

    /// The word written to `ICR` to clear the overrun, error and frame flags.
    pub fn clear_interrupt_flags() -> (r: u32)
        ensures
            r == IRQ_CAPTURE,
    {
        let r = IRQ_OVR | IRQ_ERR | IRQ_FRAME;
        assert((0x2u32 | 0x4u32) | 0x1u32 == 0x7u32) by (bit_vector);
        r
    }

    /// The value of `IER` after the interrupt handler saw the raised sources `ris`,
    /// where it held `ier`: each raised capture interrupt is disabled.
    pub fn on_interrupt(ris: u32, ier: u32) -> (r: u32)
        ensures
            r == ier_after_interrupt(ris, ier),
    {
        let mut r = ier;
        if ris & IRQ_ERR != 0 {
            r = r & !IRQ_ERR;
        }
        if ris & IRQ_OVR != 0 {
            r = r & !IRQ_OVR;
        }
        if ris & IRQ_FRAME != 0 {
            r = r & !IRQ_FRAME;
        }
        assert(r == ier & !(ris & 0x7u32)) by (bit_vector)
            requires
                r == (if ris & 0x1u32 != 0 {
                    (if ris & 0x2u32 != 0 {
                        (if ris & 0x4u32 != 0 { ier & !0x4u32 } else { ier }) & !0x2u32
                    } else {
                        (if ris & 0x4u32 != 0 { ier & !0x4u32 } else { ier })
                    }) & !0x1u32
                } else {
                    (if ris & 0x2u32 != 0 {
                        (if ris & 0x4u32 != 0 { ier & !0x4u32 } else { ier }) & !0x2u32
                    } else {
                        (if ris & 0x4u32 != 0 { ier & !0x4u32 } else { ier })
                    })
                }),
        ;
        r
    }

    /// One look at the raised interrupt sources `ris` while a capture runs.
    pub fn poll_capture(ris: u32) -> (p: CapturePoll)
        ensures
            p == capture_poll_spec(ris),
            (p.status == CaptureStatus::Failed(Error::PeripheralError)) == (ris & IRQ_ERR != 0),
            (p.status == CaptureStatus::Failed(Error::Overrun)) == (ris & IRQ_ERR == 0 && ris
                & IRQ_OVR != 0),
            (p.status == CaptureStatus::Captured) == (ris & IRQ_ERR == 0 && ris & IRQ_OVR == 0
                && ris & IRQ_FRAME != 0),
            (p.status == CaptureStatus::Pending) == (ris & IRQ_CAPTURE == 0),
            p.clear == match p.status {
                CaptureStatus::Pending => None,
                CaptureStatus::Captured => Some(IRQ_FRAME),
                CaptureStatus::Failed(Error::Overrun) => Some(IRQ_OVR),
                CaptureStatus::Failed(Error::PeripheralError) => Some(IRQ_ERR),
            },
    {
        proof {
            lemma_capture_poll(ris);
        }
        if ris & IRQ_ERR != 0 {
            CapturePoll {
                status: CaptureStatus::Failed(Error::PeripheralError),
                clear: Some(IRQ_ERR),
            }
        } else if ris & IRQ_OVR != 0 {
            CapturePoll { status: CaptureStatus::Failed(Error::Overrun), clear: Some(IRQ_OVR) }
        } else if ris & IRQ_FRAME != 0 {
            CapturePoll { status: CaptureStatus::Captured, clear: Some(IRQ_FRAME) }
        } else {
            CapturePoll { status: CaptureStatus::Pending, clear: None }
        }
    }
}

proof fn lemma_cr_fields_bv(cr: u32, ess: bool, pck: bool, vs: bool, hs: bool, edm: u32)
    requires
        edm < 4,
    ensures
        ({
            let fe: u32 = if ess { 0x0010u32 } else { 0u32 };
            let fp: u32 = if pck { 0x0020u32 } else { 0u32 };
            let fv: u32 = if vs { 0x0080u32 } else { 0u32 };
            let fh: u32 = if hs { 0x0040u32 } else { 0u32 };
            let r = (cr & !0x0ff2u32) | 0x0002u32 | fe | fp | fv | fh | (edm << 10u32);
            &&& r & 0x0002u32 != 0
            &&& (r & 0x0010u32 != 0) == ess
            &&& (r & 0x0020u32 != 0) == pck
            &&& (r & 0x0080u32 != 0) == vs
            &&& (r & 0x0040u32 != 0) == hs
            &&& r & 0x0300u32 == 0
            &&& (r & 0x0c00u32) >> 10u32 == edm
            &&& r & !0x0ff2u32 == cr & !0x0ff2u32
            &&& (r & !0x0ff2u32) | 0x0002u32 | fe | fp | fv | fh | (edm << 10u32) == r
        }),
{
    let fe: u32 = if ess { 0x0010u32 } else { 0u32 };
    let fp: u32 = if pck { 0x0020u32 } else { 0u32 };
    let fv: u32 = if vs { 0x0080u32 } else { 0u32 };
    let fh: u32 = if hs { 0x0040u32 } else { 0u32 };
    let r = (cr & !0x0ff2u32) | 0x0002u32 | fe | fp | fv | fh | (edm << 10u32);
    assert({
        &&& r & 0x0002u32 != 0
        &&& (r & 0x0010u32 != 0) == (fe != 0)
        &&& (r & 0x0020u32 != 0) == (fp != 0)
        &&& (r & 0x0080u32 != 0) == (fv != 0)
        &&& (r & 0x0040u32 != 0) == (fh != 0)
        &&& r & 0x0300u32 == 0
        &&& (r & 0x0c00u32) >> 10u32 == edm
        &&& r & !0x0ff2u32 == cr & !0x0ff2u32
        &&& (r & !0x0ff2u32) | 0x0002u32 | fe | fp | fv | fh | (edm << 10u32) == r
    }) by (bit_vector)
        requires
            edm < 4,
            r == (cr & !0x0ff2u32) | 0x0002u32 | fe | fp | fv | fh | (edm << 10u32),
            fe == 0x0010u32 || fe == 0,
            fp == 0x0020u32 || fp == 0,
            fv == 0x0080u32 || fv == 0,
            fh == 0x0040u32 || fh == 0,
    ;
}

/// Configuring the interface sets each configured field to its value (snapshot mode,
/// synchronisation, the three polarities, every frame captured, the data mode) and
/// keeps every other bit of `CR`; configuring twice is configuring once.
pub proof fn lemma_configured_cr_fields(cr: u32, config: Config, embedded_sync: bool, edm: u8)
    requires
        edm < 4,
    ensures
        ({
            let r = configured_cr(cr, config, embedded_sync, edm);
            &&& r & CR_CM != 0
            &&& (r & CR_ESS != 0) == embedded_sync
            &&& (r & CR_PCKPOL != 0) == (config.pixclk_polarity == PixelClockPolarity::RisingEdge)
            &&& (r & CR_VSPOL != 0) == (config.vsync_level == VSyncDataInvalidLevel::High)
            &&& (r & CR_HSPOL != 0) == (config.hsync_level == HSyncDataInvalidLevel::High)
            &&& r & CR_FCRC == 0
            &&& (r & CR_EDM) >> CR_EDM_SHIFT == edm
            &&& r & !CR_CONFIG_FIELDS == cr & !CR_CONFIG_FIELDS
            &&& configured_cr(r, config, embedded_sync, edm) == r
        }),
{
    lemma_cr_fields_bv(
        cr,
        embedded_sync,
        config.pixclk_polarity == PixelClockPolarity::RisingEdge,
        config.vsync_level == VSyncDataInvalidLevel::High,
        config.hsync_level == HSyncDataInvalidLevel::High,
        edm as u32,
    );
}

/// Enabling or disabling sets both `ENABLE` and `CAPTURE` to the requested state and
/// keeps every other bit of `CR`; only the last toggle counts. Configuring the
/// interface neither starts nor stops a capture: it commutes with toggling.
pub proof fn lemma_toggled_cr(cr: u32, first: bool, second: bool, config: Config, embedded_sync: bool, edm: u8)
    requires
        edm < 4,
    ensures
        (toggled_cr(cr, first) & CR_ENABLE != 0) == first,
        (toggled_cr(cr, first) & CR_CAPTURE != 0) == first,
        toggled_cr(cr, first) & !(CR_ENABLE | CR_CAPTURE) == cr & !(CR_ENABLE | CR_CAPTURE),
        toggled_cr(toggled_cr(cr, first), second) == toggled_cr(cr, second),
        toggled_cr(configured_cr(cr, config, embedded_sync, edm), first) == configured_cr(
            toggled_cr(cr, first),
            config,
            embedded_sync,
            edm,
        ),
{
    assert(0x4000u32 | 0x0001u32 == 0x4001u32) by (bit_vector);
    assert(((cr | 0x4001u32) & 0x4000u32 != 0) && ((cr | 0x4001u32) & 0x0001u32 != 0)
        && ((cr & !0x4001u32) & 0x4000u32 == 0) && ((cr & !0x4001u32) & 0x0001u32 == 0)
        && ((cr | 0x4001u32) & !0x4001u32 == cr & !0x4001u32)
        && ((cr & !0x4001u32) & !0x4001u32 == cr & !0x4001u32)) by (bit_vector);
    assert(((cr | 0x4001u32) | 0x4001u32 == cr | 0x4001u32) && ((cr | 0x4001u32) & !0x4001u32
        == cr & !0x4001u32) && ((cr & !0x4001u32) | 0x4001u32 == cr | 0x4001u32) && ((cr
        & !0x4001u32) & !0x4001u32 == cr & !0x4001u32)) by (bit_vector);
    let fe = flag(embedded_sync, CR_ESS);
    let fp = flag(config.pixclk_polarity == PixelClockPolarity::RisingEdge, CR_PCKPOL);
    let fv = flag(config.vsync_level == VSyncDataInvalidLevel::High, CR_VSPOL);
    let fh = flag(config.hsync_level == HSyncDataInvalidLevel::High, CR_HSPOL);
    let fd = (edm as u32) << CR_EDM_SHIFT;
    assert(fd & 0x4001u32 == 0 && fd & !0x0c00u32 == 0) by (bit_vector)
        requires
            fd == (edm as u32) << 10u32,
            edm < 4,
    ;
    assert((((cr & !0x0ff2u32) | 0x0002u32 | fe | fp | fv | fh | fd) | 0x4001u32) == (((cr
        | 0x4001u32) & !0x0ff2u32) | 0x0002u32 | fe | fp | fv | fh | fd) && (((cr & !0x0ff2u32)
        | 0x0002u32 | fe | fp | fv | fh | fd) & !0x4001u32) == (((cr & !0x4001u32) & !0x0ff2u32)
        | 0x0002u32 | fe | fp | fv | fh | fd)) by (bit_vector)
        requires
            fe == 0x0010u32 || fe == 0,
            fp == 0x0020u32 || fp == 0,
            fv == 0x0080u32 || fv == 0,
            fh == 0x0040u32 || fh == 0,
            fd & 0x4001u32 == 0,
            fd & !0x0c00u32 == 0,
    ;
}

/// The interrupt handler disables each raised capture interrupt, so none of them
/// fires again, and leaves every other interrupt enable as it was.
pub proof fn lemma_interrupt_masks_raised_sources(ris: u32, ier: u32)
    ensures
        ier_after_interrupt(ris, ier) & ris & IRQ_CAPTURE == 0,
        ier_after_interrupt(ris, ier) & !(ris & IRQ_CAPTURE) == ier & !(ris & IRQ_CAPTURE),
{
    assert((ier & !(ris & 0x7u32)) & ris & 0x7u32 == 0) by (bit_vector);
    assert((ier & !(ris & 0x7u32)) & !(ris & 0x7u32) == ier & !(ris & 0x7u32)) by (bit_vector);
}

/// A capture ends exactly when one of its three sources is raised; an error takes
/// precedence over an overrun, which takes precedence over a captured frame; the
/// write that ends it clears exactly the reported source, which was raised. Only the
/// three capture sources count: other raised flags change nothing.
pub proof fn lemma_capture_poll(ris: u32)
    ensures
        (capture_poll_spec(ris).status == CaptureStatus::Pending) == (ris & IRQ_CAPTURE == 0),
        (capture_poll_spec(ris).status == CaptureStatus::Pending) == (capture_poll_spec(ris).clear is None),
        (capture_poll_spec(ris).status == CaptureStatus::Failed(Error::PeripheralError)) == (ris
            & IRQ_ERR != 0),
        (capture_poll_spec(ris).status == CaptureStatus::Failed(Error::Overrun)) == (ris & IRQ_ERR
            == 0 && ris & IRQ_OVR != 0),
        (capture_poll_spec(ris).status == CaptureStatus::Captured) == (ris & IRQ_ERR == 0 && ris
            & IRQ_OVR == 0 && ris & IRQ_FRAME != 0),
        capture_poll_spec(ris).status == CaptureStatus::Failed(Error::PeripheralError)
            ==> capture_poll_spec(ris).clear == Some(IRQ_ERR),
        capture_poll_spec(ris).status == CaptureStatus::Failed(Error::Overrun)
            ==> capture_poll_spec(ris).clear == Some(IRQ_OVR),
        capture_poll_spec(ris).status == CaptureStatus::Captured ==> capture_poll_spec(ris).clear
            == Some(IRQ_FRAME),
        capture_poll_spec(ris).clear matches Some(m) ==> ris & m != 0 && (m == IRQ_ERR || m
            == IRQ_OVR || m == IRQ_FRAME),
        capture_poll_spec(ris) == capture_poll_spec(ris & IRQ_CAPTURE),
{
    assert((ris & 0x7u32 == 0) == (ris & 0x4u32 == 0 && ris & 0x2u32 == 0 && ris & 0x1u32 == 0))
        by (bit_vector);
    assert((ris & 0x7u32) & 0x4u32 == ris & 0x4u32 && (ris & 0x7u32) & 0x2u32 == ris & 0x2u32 && (
    ris & 0x7u32) & 0x1u32 == ris & 0x1u32) by (bit_vector);
}

} // verus!
