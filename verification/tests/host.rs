use rboy::args::{check_scale, parse_scale_var, ArgParseError};
use rboy::audio::{
    choose_output_config, queue_samples, take_samples, underflowed, NullAudioPlayer,
    OutputConfigRange, SampleFormat,
};
use rboy::input::ElementState::{Pressed, Released};
use rboy::input::{key_action, winit_to_keypad, GBEvent, Key, NamedKey, RenderOptions, WindowAction};
use rboy::keypad::KeypadKey;
use rboy::runner::{pause_cpu, test_command, wait_ticks, TestCommand};
use rboy::screen::{blit_target, screenshot_line, window_size, window_title, BlitRect};

#[test]
fn scale_is_read_in_base_ten() {
    assert_eq!(parse_scale_var("1").unwrap(), 1);
    assert_eq!(parse_scale_var("2").unwrap(), 2);
    assert_eq!(parse_scale_var("8").unwrap(), 8);
    assert_eq!(parse_scale_var("+3").unwrap(), 3);
    assert_eq!(parse_scale_var("007").unwrap(), 7);
}

#[test]
fn scale_below_one_is_refused() {
    assert_eq!(parse_scale_var("0").unwrap_err().message, "Scale must be at least 1");
    assert_eq!(parse_scale_var("+0").unwrap_err().message, "Scale must be at least 1");
}

#[test]
fn scale_above_eight_is_refused() {
    assert_eq!(parse_scale_var("9").unwrap_err().message, "Scale may be at most 8");
    assert_eq!(parse_scale_var("4294967295").unwrap_err().message, "Scale may be at most 8");
}

#[test]
fn scale_that_is_no_number_is_refused() {
    assert_eq!(
        parse_scale_var("abc").unwrap_err().message,
        "Could not parse scale: invalid digit found in string"
    );
    assert_eq!(
        parse_scale_var("").unwrap_err().message,
        "Could not parse scale: cannot parse integer from empty string"
    );
    assert_eq!(
        parse_scale_var("4294967296").unwrap_err().message,
        "Could not parse scale: number too large to fit in target type"
    );
    for bad in ["-1", "+", " 2", "2 ", "1_0", "2.0", "٣"] {
        assert!(parse_scale_var(bad).unwrap_err().message.starts_with("Could not parse scale: "));
    }
}

#[test]
fn scale_is_checked_after_reading() {
    assert_eq!(check_scale(Ok(5)).unwrap(), 5);
    assert_eq!(check_scale(Ok(0)).unwrap_err().message, "Scale must be at least 1");
    assert_eq!(check_scale(Ok(100)).unwrap_err().message, "Scale may be at most 8");
    assert_eq!(
        check_scale(Err(String::from("why"))).unwrap_err().message,
        "Could not parse scale: why"
    );
}

#[test]
fn arg_parse_error_keeps_its_message() {
    let e = ArgParseError::new(String::from("no"));
    assert_eq!(e.message, "no");
    assert_eq!(e.to_text(), "no");
}

#[test]
fn window_title_names_the_game() {
    assert_eq!(window_title("TETRIS"), "RBoy - TETRIS");
    assert_eq!(window_title(""), "RBoy - ");
}

#[test]
fn window_size_scales_the_picture() {
    assert_eq!(window_size(1), (160, 144));
    assert_eq!(window_size(2), (320, 288));
    assert_eq!(window_size(8), (1280, 1152));
}

#[test]
fn screenshot_line_is_hex() {
    assert_eq!(screenshot_line(&[]), "SCREENSHOT:");
    assert_eq!(screenshot_line(&[0x00, 0x0f, 0xa5, 0xff]), "SCREENSHOT:000fa5ff");
    assert_eq!(screenshot_line(&[0x12, 0x9c, 0xde]), "SCREENSHOT:129cde");
}

fn offer(channels: u16, sample_format: SampleFormat, min: u32, max: u32) -> OutputConfigRange {
    OutputConfigRange { channels, sample_format, min_sample_rate: min, max_sample_rate: max }
}

#[test]
fn first_stereo_float_format_is_chosen() {
    let offers = [
        offer(1, SampleFormat::F32, 8000, 48000),
        offer(2, SampleFormat::I16, 8000, 48000),
        offer(2, SampleFormat::F32, 8000, 48000),
        offer(2, SampleFormat::F32, 44100, 44100),
    ];
    let c = choose_output_config(&offers).unwrap();
    assert_eq!(c.index, 2);
    assert_eq!(c.sample_rate, 44100);
}

#[test]
fn highest_rate_is_taken_where_the_wanted_one_is_not_offered() {
    let c = choose_output_config(&[offer(2, SampleFormat::F32, 8000, 22050)]).unwrap();
    assert_eq!((c.index, c.sample_rate), (0, 22050));
    let c = choose_output_config(&[offer(2, SampleFormat::F32, 48000, 96000)]).unwrap();
    assert_eq!((c.index, c.sample_rate), (0, 96000));
}

#[test]
fn no_format_that_suits_means_no_sound() {
    assert!(choose_output_config(&[]).is_none());
    assert!(choose_output_config(&[
        offer(2, SampleFormat::F64, 8000, 48000),
        offer(6, SampleFormat::F32, 8000, 48000),
        offer(2, SampleFormat::Unknown, 8000, 48000),
    ])
    .is_none());
}

#[test]
fn samples_are_queued_in_pairs() {
    let mut q: Vec<(f32, f32)> = vec![(9.0, 9.5)];
    queue_samples(&mut q, &[0.1, 0.2, 0.3], &[-0.1, -0.2, -0.3], 44100);
    assert_eq!(q, vec![(9.0, 9.5), (0.1, -0.1), (0.2, -0.2), (0.3, -0.3)]);
    queue_samples(&mut q, &[1.0, 2.0], &[3.0], 44100);
    assert_eq!(q.len(), 5);
    assert_eq!(q[4], (1.0, 3.0));
}

#[test]
fn queue_drops_what_is_beyond_a_second() {
    let mut q: Vec<(i32, i32)> = Vec::new();
    let left: Vec<i32> = (0..10).collect();
    let right: Vec<i32> = (100..110).collect();
    queue_samples(&mut q, &left, &right, 4);
    assert_eq!(q, vec![(0, 100), (1, 101), (2, 102), (3, 103), (4, 104)]);
    queue_samples(&mut q, &left, &right, 4);
    assert_eq!(q.len(), 5);
    let mut q: Vec<(i32, i32)> = vec![(7, 7); 3];
    queue_samples(&mut q, &left, &right, 4);
    assert_eq!(q, vec![(7, 7), (7, 7), (7, 7), (0, 100), (1, 101)]);
}

#[test]
fn samples_are_taken_interleaved() {
    let mut q = vec![(1, 10), (2, 20), (3, 30)];
    assert!(!underflowed(&q));
    assert_eq!(take_samples(&mut q, 4), vec![1, 10, 2, 20]);
    assert_eq!(q, vec![(3, 30)]);
    assert_eq!(take_samples(&mut q, 5), vec![3, 30]);
    assert!(q.is_empty());
    assert!(underflowed(&q));
    assert_eq!(take_samples(&mut q, 8), Vec::<i32>::new());
    let mut q = vec![(1, 10)];
    assert_eq!(take_samples(&mut q, 1), Vec::<i32>::new());
    assert_eq!(q, vec![(1, 10)]);
}

#[test]
fn null_player_plays_nothing() {
    let mut p = NullAudioPlayer {};
    p.play(&[0.5f32], &[0.5f32]);
    assert_eq!(p.samples_rate(), 44100);
    assert!(!p.underflowed());
}

#[test]
fn keys_of_the_machine() {
    assert_eq!(winit_to_keypad(Key::Character('Z')), Some(KeypadKey::A));
    assert_eq!(winit_to_keypad(Key::Character('z')), Some(KeypadKey::A));
    assert_eq!(winit_to_keypad(Key::Character('X')), Some(KeypadKey::B));
    assert_eq!(winit_to_keypad(Key::Character('x')), Some(KeypadKey::B));
    assert_eq!(winit_to_keypad(Key::Named(NamedKey::ArrowUp)), Some(KeypadKey::Up));
    assert_eq!(winit_to_keypad(Key::Named(NamedKey::ArrowDown)), Some(KeypadKey::Down));
    assert_eq!(winit_to_keypad(Key::Named(NamedKey::ArrowLeft)), Some(KeypadKey::Left));
    assert_eq!(winit_to_keypad(Key::Named(NamedKey::ArrowRight)), Some(KeypadKey::Right));
    assert_eq!(winit_to_keypad(Key::Named(NamedKey::Space)), Some(KeypadKey::Select));
    assert_eq!(winit_to_keypad(Key::Named(NamedKey::Enter)), Some(KeypadKey::Start));
    assert_eq!(winit_to_keypad(Key::Character('a')), None);
    assert_eq!(winit_to_keypad(Key::Named(NamedKey::Escape)), None);
    assert_eq!(winit_to_keypad(Key::Other), None);
}

#[test]
fn keys_of_the_window() {
    assert_eq!(key_action(Pressed, Key::Named(NamedKey::Escape), false), (WindowAction::Exit, false));
    assert_eq!(key_action(Released, Key::Named(NamedKey::Escape), false), (WindowAction::Nothing, false));
    assert_eq!(key_action(Pressed, Key::Character('1'), true), (WindowAction::SetWindowSize(1), true));
    assert_eq!(key_action(Pressed, Key::Character('p'), false), (WindowAction::Send(GBEvent::Pause), true));
    assert_eq!(key_action(Pressed, Key::Character('P'), true), (WindowAction::Send(GBEvent::Resume), false));
    assert_eq!(key_action(Released, Key::Character('p'), false), (WindowAction::Nothing, false));
    assert_eq!(key_action(Pressed, Key::Character('l'), false), (WindowAction::Send(GBEvent::LoadPlugin), false));
    assert_eq!(key_action(Pressed, Key::Character('R'), false), (WindowAction::Send(GBEvent::RunPlugin), false));
    assert_eq!(key_action(Pressed, Key::Named(NamedKey::Shift), false), (WindowAction::Send(GBEvent::SpeedUp), false));
    assert_eq!(key_action(Released, Key::Named(NamedKey::Shift), false), (WindowAction::Send(GBEvent::SpeedDown), false));
    assert_eq!(key_action(Pressed, Key::Character('t'), false), (WindowAction::ToggleInterpolation, false));
    assert_eq!(
        key_action(Pressed, Key::Character('z'), false),
        (WindowAction::Send(GBEvent::KeyDown(KeypadKey::A)), false)
    );
    assert_eq!(
        key_action(Released, Key::Named(NamedKey::Enter), true),
        (WindowAction::Send(GBEvent::KeyUp(KeypadKey::Start)), true)
    );
    assert_eq!(key_action(Pressed, Key::Character('q'), false), (WindowAction::Nothing, false));
    assert_eq!(key_action(Released, Key::Other, false), (WindowAction::Nothing, false));
}

#[test]
fn render_options_start_sharp() {
    assert!(!RenderOptions::default().linear_interpolation);
}

#[test]
fn a_slice_is_sixteen_milliseconds_of_cycles() {
    assert_eq!(wait_ticks(), 67109);
}

#[test]
fn a_pause_ends_with_resume_or_a_closed_window() {
    assert!(pause_cpu(Some(GBEvent::Resume)));
    assert!(pause_cpu(None));
    assert!(!pause_cpu(Some(GBEvent::Pause)));
    assert!(!pause_cpu(Some(GBEvent::KeyDown(KeypadKey::A))));
    assert!(!pause_cpu(Some(GBEvent::SpeedUp)));
}

#[test]
fn commands_of_the_test_mode() {
    assert_eq!(test_command(b'q'), TestCommand::Quit);
    assert_eq!(test_command(b's'), TestCommand::Screenshot);
    assert_eq!(test_command(b'x'), TestCommand::Unknown(b'x'));
    assert_eq!(test_command(0), TestCommand::Unknown(0));
}

#[test]
fn the_picture_fills_the_window_from_the_top() {
    assert_eq!(blit_target(320, 288), BlitRect { left: 0, bottom: 288, width: 320, height: -288 });
    assert_eq!(blit_target(0, 0), BlitRect { left: 0, bottom: 0, width: 0, height: 0 });
}
