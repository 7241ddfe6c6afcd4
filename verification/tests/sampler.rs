use button_display::debounce::Debouncer;
use button_display::measurement::Measurement;
use button_display::measurement::Milli;
use button_display::mode::DisplayState;
use button_display::mode_signal::ModeSignal;
use button_display::render::DOTS_NONE;
use button_display::render::DOTS_TEMP_NONNEG;
use button_display::render::SamplerEvent;
use button_display::render::SamplerRenderer;

fn room_conditions() -> Measurement {
    Measurement {
        temperature: Milli::new(false, 23_700),
        humidity: Milli::new(false, 47_900),
        pressure: Milli::new(false, 101_325_000),
    }
}

#[test]
fn failed_measurement_skips_the_tick_and_spares_the_next() {
    let mut sampler = SamplerRenderer::new(DisplayState::Temp);

    // A failed sensor read renders nothing and changes nothing...
    assert!(sampler.step(SamplerEvent::RenderTick(None)).is_none());
    assert_eq!(sampler.current_mode(), DisplayState::Temp);

    // ...and the following tick's attempt goes through untouched.
    let r = sampler.step(SamplerEvent::RenderTick(Some(room_conditions()))).unwrap();
    assert_eq!(r.glyphs().as_slice(), &b" 237 CEL"[..]);
    assert_eq!(r.dot_mask(), DOTS_TEMP_NONNEG);
}

#[test]
fn mode_update_renders_nothing_and_is_remembered() {
    let mut sampler = SamplerRenderer::new(DisplayState::Temp);

    assert!(sampler.step(SamplerEvent::ModeUpdate(DisplayState::Pressure)).is_none());
    assert_eq!(sampler.current_mode(), DisplayState::Pressure);

    let r = sampler.step(SamplerEvent::RenderTick(Some(room_conditions()))).unwrap();
    assert_eq!(r.glyphs().as_slice(), &b"1013 HPA"[..]);
    assert_eq!(r.dot_mask(), DOTS_NONE);
}

#[test]
fn renders_humidity_after_one_button_press() {
    // The full path of one press: debouncer -> signal -> sampler -> glyphs.
    let mut signal = ModeSignal::new();
    let mut debouncer = Debouncer::new(DisplayState::Temp);
    let mut sampler = SamplerRenderer::new(DisplayState::Temp);

    debouncer.on_edge(&mut signal, 500);
    assert!(signal.has_pending());
    let mode = signal.wait();
    assert!(sampler.step(SamplerEvent::ModeUpdate(mode)).is_none());

    let r = sampler.step(SamplerEvent::RenderTick(Some(room_conditions()))).unwrap();
    assert_eq!(r.glyphs().as_slice(), &b"  47 PHU"[..]);
    assert_eq!(r.dot_mask(), DOTS_NONE);
}

#[test]
fn rendered_buffer_always_has_eight_cells() {
    let mut sampler = SamplerRenderer::new(DisplayState::Temp);
    for _ in 0..3 {
        let r = sampler.step(SamplerEvent::RenderTick(Some(room_conditions()))).unwrap();
        assert_eq!(r.glyphs().len(), 8);
        let mode = sampler.current_mode().next_state();
        sampler.step(SamplerEvent::ModeUpdate(mode));
    }
}
