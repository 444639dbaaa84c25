use moterm::color::Rgb;
use moterm::color::default_bg_color;
use moterm::pty::ReadOutcome;
use moterm::pty::ReaderAction;
use moterm::pty::WriteAction;
use moterm::pty::WriteOutcome;
use moterm::pty::reader_step;
use moterm::pty::write_step;
use moterm::renderer::PixelCanvas;
use moterm::url::detect_urls;

#[test]
fn detects_plain_url() {
    let r = detect_urls("visit https://example.com today");
    assert_eq!(r.len(), 1);
    assert_eq!(r[0].0, 6);
    assert_eq!(r[0].1, 25);
    assert_eq!(r[0].2, "https://example.com");
}

#[test]
fn strips_trailing_punctuation() {
    let r = detect_urls("see http://a.bc/d.");
    assert_eq!(r.len(), 1);
    assert_eq!(r[0].2, "http://a.bc/d");
}

#[test]
fn stops_at_delimiters() {
    let r = detect_urls("<http://long.example/x>\"http://other.example/y\"");
    assert_eq!(r.len(), 2);
    assert_eq!(r[0].2, "http://long.example/x");
    assert_eq!(r[1].2, "http://other.example/y");
}

#[test]
fn too_short_runs_are_dropped() {
    assert_eq!(detect_urls("http://x").len(), 0);
    assert_eq!(detect_urls("http://xy").len(), 1);
    assert_eq!(detect_urls("nothing here").len(), 0);
}

#[test]
fn reader_policy() {
    assert_eq!(reader_step(ReadOutcome::Read(0)), ReaderAction::EmitExitAndStop);
    assert_eq!(reader_step(ReadOutcome::Read(42)), ReaderAction::EmitOutput);
    assert_eq!(reader_step(ReadOutcome::WouldBlock), ReaderAction::BackToWait);
    assert_eq!(reader_step(ReadOutcome::OtherError), ReaderAction::EmitExitAndStop);
}

#[test]
fn writer_policy() {
    assert_eq!(write_step(WriteOutcome::Wrote(0), 0, 10), WriteAction::Fail);
    assert_eq!(write_step(WriteOutcome::Wrote(4), 0, 10), WriteAction::Continue(4));
    assert_eq!(write_step(WriteOutcome::Wrote(6), 4, 10), WriteAction::Done);
    assert_eq!(write_step(WriteOutcome::Interrupted, 0, 10), WriteAction::Retry);
    assert_eq!(write_step(WriteOutcome::WouldBlock, 0, 10), WriteAction::SleepRetry);
    assert_eq!(write_step(WriteOutcome::OtherError, 0, 10), WriteAction::Fail);
}

#[test]
fn canvas_resize_fills_background() {
    let mut c = PixelCanvas::new();
    c.resize(4, 3);
    assert_eq!(c.pixels.len(), 12);
    let bg = default_bg_color().to_u32();
    assert!(c.pixels.iter().all(|p| *p == bg));
}

#[test]
fn canvas_clear_and_fill_rect() {
    let mut c = PixelCanvas::new();
    c.resize(4, 4);
    c.clear(Rgb::new(1, 1, 1));
    assert!(c.pixels.iter().all(|p| *p == 0x010101));
    c.fill_rect(1, 1, 2, 2, Rgb::new(2, 2, 2));
    for y in 0..4 {
        for x in 0..4 {
            let expect = if (1..3).contains(&x) && (1..3).contains(&y) { 0x020202 } else { 0x010101 };
            assert_eq!(c.pixels[y * 4 + x], expect, "pixel {},{}", x, y);
        }
    }
    // Clipped rectangle.
    c.fill_rect(3, 3, 10, 10, Rgb::new(3, 3, 3));
    assert_eq!(c.pixels[3 * 4 + 3], 0x030303);
    assert_eq!(c.pixels[3 * 4 + 2], 0x010101);
}

#[test]
fn canvas_blend_pixel() {
    let mut c = PixelCanvas::new();
    c.resize(2, 1);
    c.clear(Rgb::new(0, 100, 200));
    c.blend_pixel(0, 0, Rgb::new(200, 100, 0), 128);
    assert_eq!(c.pixels[0], Rgb::new(100, 100, 99).to_u32());
    assert_eq!(c.pixels[1], Rgb::new(0, 100, 200).to_u32());
    // Out of bounds is ignored.
    c.blend_pixel(5, 5, Rgb::new(9, 9, 9), 255);
    assert_eq!(c.pixels.len(), 2);
}
