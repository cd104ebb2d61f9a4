use embassy_drivers::dcmi::{
    CapturePoll, CaptureStatus, Config, Dcmi, Error, HSyncDataInvalidLevel, PixelClockPolarity,
    VSyncDataInvalidLevel,
};

#[test]
fn default_config() {
    let c = Config::default();
    assert_eq!(c.vsync_level, VSyncDataInvalidLevel::High);
    assert_eq!(c.hsync_level, HSyncDataInvalidLevel::Low);
    assert_eq!(c.pixclk_polarity, PixelClockPolarity::RisingEdge);
}

#[test]
fn configure_8bit_default_from_zero() {
    let d = Dcmi::new_8bit(Config::default());
    // CM, PCKPOL, VSPOL set; ESS, HSPOL clear; FCRC 0; EDM 0.
    assert_eq!(d.configure_cr(0), 0x0002 | 0x0020 | 0x0080);
}

#[test]
fn configure_bus_widths_and_sync() {
    let c = Config::default();
    assert_eq!(Dcmi::new_10bit(c).configure_cr(0) >> 10 & 0x3, 1);
    assert_eq!(Dcmi::new_12bit(c).configure_cr(0) >> 10 & 0x3, 2);
    assert_eq!(Dcmi::new_14bit(c).configure_cr(0) >> 10 & 0x3, 3);
    assert_eq!(Dcmi::new_es_8bit(c).configure_cr(0), 0x00a2 | 0x0010);
    assert_eq!(Dcmi::new_es_10bit(c).configure_cr(0), 0x00b2 | 0x0400);
    assert_eq!(Dcmi::new_es_12bit(c).configure_cr(0), 0x00b2 | 0x0800);
    assert_eq!(Dcmi::new_es_14bit(c).configure_cr(0), 0x00b2 | 0x0c00);
}

#[test]
fn configure_keeps_other_bits_and_clears_fields() {
    let mut c = Config::default();
    c.vsync_level = VSyncDataInvalidLevel::Low;
    c.hsync_level = HSyncDataInvalidLevel::High;
    c.pixclk_polarity = PixelClockPolarity::FallingEdge;
    let d = Dcmi::new_8bit(c);
    // every bit set: configured fields take their values, the rest stays
    let r = d.configure_cr(0xffff_ffff);
    // ESS, PCKPOL, VSPOL, FCRC and EDM cleared; CM and HSPOL set.
    assert_eq!(r, 0xffff_f04f);
    assert_eq!(r & 0x4001, 0x4001);
    assert_eq!(d.configure_cr(r), r);
}

#[test]
fn toggle_sets_enable_and_capture() {
    assert_eq!(Dcmi::toggle(0x0002, true), 0x4003);
    assert_eq!(Dcmi::toggle(0x4003, false), 0x0002);
    assert_eq!(Dcmi::toggle(Dcmi::toggle(0x00a2, true), false), 0x00a2);
}

#[test]
fn irq_enable_and_clear_words() {
    assert_eq!(Dcmi::enable_irqs(0), 0x7);
    assert_eq!(Dcmi::enable_irqs(0x18), 0x1f);
    assert_eq!(Dcmi::clear_interrupt_flags(), 0x7);
}

#[test]
fn interrupt_disables_raised_sources() {
    assert_eq!(Dcmi::on_interrupt(0x4, 0x1f), 0x1b);
    assert_eq!(Dcmi::on_interrupt(0x1, 0x1f), 0x1e);
    assert_eq!(Dcmi::on_interrupt(0x7, 0x1f), 0x18);
    assert_eq!(Dcmi::on_interrupt(0x18, 0x1f), 0x1f);
    assert_eq!(Dcmi::on_interrupt(0, 0x7), 0x7);
}

#[test]
fn poll_reports_error_first() {
    assert_eq!(
        Dcmi::poll_capture(0x7),
        CapturePoll { status: CaptureStatus::Failed(Error::PeripheralError), clear: Some(0x4) }
    );
}

#[test]
fn poll_reports_overrun() {
    assert_eq!(
        Dcmi::poll_capture(0x3),
        CapturePoll { status: CaptureStatus::Failed(Error::Overrun), clear: Some(0x2) }
    );
}

#[test]
fn poll_reports_frame() {
    assert_eq!(
        Dcmi::poll_capture(0x1),
        CapturePoll { status: CaptureStatus::Captured, clear: Some(0x1) }
    );
}

#[test]
fn poll_pending_without_capture_sources() {
    assert_eq!(Dcmi::poll_capture(0), CapturePoll { status: CaptureStatus::Pending, clear: None });
    assert_eq!(
        Dcmi::poll_capture(0x18),
        CapturePoll { status: CaptureStatus::Pending, clear: None }
    );
}
