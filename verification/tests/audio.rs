use ferrosonic::audio::ffmpeg::{decode_args, decode_s32le};
use ferrosonic::audio::pipewire::{parse_force_rate, query_args, PipeWireController, RateCommand};
use ferrosonic::audio::ring::AudioState;

#[test]
fn new_ring_is_empty_and_idle_only_when_finished() {
    let ring: AudioState<i32> = AudioState::new(8, 0);
    assert_eq!(ring.available_read(), 0);
    assert_eq!(ring.available_write(), 7);
    assert!(!ring.playing());
    assert!(!ring.finished());
    assert_eq!(ring.generation(), 0);
    assert!(!ring.is_idle());
}

#[test]
fn ring_keeps_one_slot_free() {
    let mut ring: AudioState<i32> = AudioState::new(4, 0);
    let written = ring.push_samples(&[1, 2, 3, 4, 5]);
    assert_eq!(written, 3);
    assert_eq!(ring.available_read(), 3);
    assert_eq!(ring.available_write(), 0);
    assert_eq!(ring.push_samples(&[9]), 0);
}

#[test]
fn ring_is_first_in_first_out() {
    let mut ring: AudioState<i32> = AudioState::new(5, 0);
    assert_eq!(ring.push_samples(&[10, 20, 30]), 3);
    let mut out = [0i32; 2];
    assert_eq!(ring.pop_samples(&mut out), 2);
    assert_eq!(out, [10, 20]);
    // wraps around the end of the buffer
    assert_eq!(ring.push_samples(&[40, 50, 60]), 3);
    assert_eq!(ring.available_read(), 4);
    let mut out = [-1i32; 6];
    assert_eq!(ring.pop_samples(&mut out), 4);
    assert_eq!(out, [30, 40, 50, 60, -1, -1]);
    assert_eq!(ring.available_read(), 0);
    assert_eq!(ring.available_write(), 4);
}

#[test]
fn pop_from_empty_ring_leaves_output_alone() {
    let mut ring: AudioState<i32> = AudioState::new(3, 0);
    let mut out = [7i32; 3];
    assert_eq!(ring.pop_samples(&mut out), 0);
    assert_eq!(out, [7, 7, 7]);
}

#[test]
fn push_of_nothing_into_empty_ring_writes_nothing() {
    let mut ring: AudioState<i32> = AudioState::new(0, 0);
    assert_eq!(ring.push_samples(&[]), 0);
    assert_eq!(ring.available_read(), 0);
}

#[test]
fn new_stream_bumps_generation_and_clears() {
    let mut ring: AudioState<f32> = AudioState::new(6, 0.0);
    ring.push_samples(&[0.5, 0.25]);
    let g = ring.begin_new_stream(0.0);
    assert_eq!(g, 1);
    assert_eq!(ring.generation(), 1);
    assert_eq!(ring.available_read(), 0);
    assert!(ring.playing());
    assert!(!ring.finished());
    assert!(!ring.is_stale(1));
    assert!(ring.is_stale(0));
}

#[test]
fn stop_stream_invalidates_decoder_and_goes_idle() {
    let mut ring: AudioState<i32> = AudioState::new(6, 0);
    let g = ring.begin_new_stream(0);
    ring.push_samples(&[1, 2, 3]);
    ring.stop_stream();
    assert!(ring.is_stale(g));
    assert_eq!(ring.generation(), g + 1);
    assert_eq!(ring.available_read(), 0);
    assert!(ring.finished());
    assert!(ring.is_idle());
}

#[test]
fn request_stop_keeps_queued_samples() {
    let mut ring: AudioState<i32> = AudioState::new(6, 0);
    let g = ring.begin_new_stream(0);
    ring.push_samples(&[1, 2]);
    ring.request_stop();
    assert!(ring.is_stale(g));
    assert_eq!(ring.available_read(), 2);
}

#[test]
fn finish_generation_ignores_old_streams() {
    let mut ring: AudioState<i32> = AudioState::new(6, 0);
    let first = ring.begin_new_stream(0);
    let second = ring.begin_new_stream(0);
    ring.finish_generation(first);
    assert!(!ring.finished());
    ring.finish_generation(second);
    assert!(ring.finished());
    assert!(ring.is_idle());
    ring.push_samples(&[3]);
    assert!(!ring.is_idle());
}

#[test]
fn generation_wraps_around() {
    let mut ring: AudioState<i32> = AudioState::new(2, 0);
    for _ in 0..3 {
        ring.begin_new_stream(0);
    }
    assert_eq!(ring.generation(), 3);
}

#[test]
fn parses_forced_rate_from_pw_metadata() {
    let out = "Found \"settings\" metadata 31\nupdate: id:0 key:'clock.force-rate' value:'48000' type:''\n";
    assert_eq!(parse_force_rate(out), 48000);
}

#[test]
fn no_forced_rate_reads_as_zero() {
    assert_eq!(parse_force_rate(""), 0);
    assert_eq!(parse_force_rate("Found \"settings\" metadata 31\n"), 0);
    assert_eq!(parse_force_rate("update: id:0 key:'clock.force-rate' value:'0' type:''"), 0);
}

#[test]
fn unparsable_rate_falls_through_to_next_line() {
    let out = "update: id:0 key:'clock.force-rate' value:'abc' type:''\nupdate: id:0 key:'clock.force-rate' value:'96000' type:''";
    assert_eq!(parse_force_rate(out), 96000);
    let out = "update: id:0 key:'clock.force-rate' value:'44100\nnothing";
    assert_eq!(parse_force_rate(out), 0);
}

#[test]
fn rate_value_may_carry_a_plus_sign() {
    assert_eq!(parse_force_rate("key:'clock.force-rate' value:'+44100'"), 44100);
    assert_eq!(parse_force_rate("key:'clock.force-rate' value:'99999999999'"), 0);
}

#[test]
fn line_must_name_the_key() {
    assert_eq!(parse_force_rate("update: id:0 key:'clock.quantum' value:'1024' type:''"), 0);
}

#[test]
fn rate_commands_build_pw_metadata_arguments() {
    assert_eq!(query_args(), vec!["-n", "settings", "0", "clock.force-rate"]);
    assert_eq!(RateCommand::Force(44100).args(), vec!["-n", "settings", "0", "clock.force-rate", "44100"]);
    assert_eq!(RateCommand::Clear.args(), vec!["-n", "settings", "0", "clock.force-rate", "0"]);
}

#[test]
fn set_rate_is_skipped_when_already_forced() {
    let mut c = PipeWireController::new(Some(0));
    assert_eq!(c.get_current_rate(), None);
    let cmd = c.set_rate(96000);
    assert_eq!(cmd, Some(RateCommand::Force(96000)));
    c.command_succeeded(cmd.unwrap());
    assert_eq!(c.get_current_rate(), Some(96000));
    assert_eq!(c.set_rate(96000), None);
    assert_eq!(c.set_rate(44100), Some(RateCommand::Force(44100)));
}

#[test]
fn restore_puts_back_the_original_rate() {
    let mut c = PipeWireController::new(Some(48000));
    c.command_succeeded(RateCommand::Force(44100));
    let cmd = c.restore_original();
    assert_eq!(cmd, Some(RateCommand::Force(48000)));
    c.command_succeeded(cmd.unwrap());
    assert_eq!(c.get_current_rate(), Some(48000));
    assert_eq!(c.restore_original(), None);
}

#[test]
fn restore_clears_when_nothing_was_forced() {
    let mut c = PipeWireController::new(Some(0));
    c.command_succeeded(RateCommand::Force(44100));
    assert_eq!(c.restore_original(), Some(RateCommand::Clear));
    c.command_succeeded(RateCommand::Clear);
    assert_eq!(c.get_current_rate(), None);
    assert_eq!(c.clear_forced_rate(), RateCommand::Clear);
}

#[test]
fn restore_does_nothing_when_original_unknown() {
    let c = PipeWireController::new(None);
    assert_eq!(c.restore_original(), None);
}

#[test]
fn decode_args_without_seek_or_equalizer() {
    let args = decode_args("http://x/s", None, None);
    let expected = vec![
        "-reconnect", "1", "-reconnect_streamed", "1", "-reconnect_delay_max", "5",
        "-probesize", "64M", "-analyzeduration", "20M", "-fflags", "+discardcorrupt",
        "-i", "http://x/s",
        "-f", "s32le", "-acodec", "pcm_s32le", "-ac", "2", "-ar", "48000",
        "-af", "aresample=async=1:min_hard_comp=0.100000",
        "-bufsize", "2M", "-loglevel", "error", "pipe:1",
    ];
    assert_eq!(args, expected);
}

#[test]
fn decode_args_with_seek_and_equalizer() {
    let args = decode_args("u", Some("12.500"), Some("equalizer=f=31:t=o:w=1:g=2.0"));
    assert_eq!(&args[12..16], &["-ss", "12.500", "-i", "u"]);
    assert_eq!(args[25], "equalizer=f=31:t=o:w=1:g=2.0,aresample=async=1:min_hard_comp=0.100000");
    assert_eq!(args.len(), 31);
}

#[test]
fn decodes_little_endian_samples() {
    let raw = [0x01, 0x00, 0x00, 0x00, 0xff, 0xff, 0xff, 0xff, 0x00, 0x00, 0x00, 0x80, 0xff, 0xff, 0xff, 0x7f];
    assert_eq!(decode_s32le(&raw), vec![1, -1, i32::MIN, i32::MAX]);
}

#[test]
fn trailing_partial_sample_is_dropped() {
    assert_eq!(decode_s32le(&[0x02, 0x01, 0x00, 0x00, 0xaa, 0xbb]), vec![0x0102]);
    assert_eq!(decode_s32le(&[]), Vec::<i32>::new());
}

#[test]
fn output_is_filled_with_silence_after_the_queued_samples() {
    let mut ring: AudioState<f32> = AudioState::new(8, 0.0);
    ring.push_samples(&[0.5, -0.5, 0.25]);
    let mut out = [9.0f32; 5];
    assert_eq!(ring.fill_output(&mut out, 0.0), 3);
    assert_eq!(out, [0.5, -0.5, 0.25, 0.0, 0.0]);
    assert_eq!(ring.available_read(), 0);
    let mut out = [9.0f32; 2];
    ring.push_samples(&[1.0, 2.0, 3.0]);
    assert_eq!(ring.fill_output(&mut out, 0.0), 2);
    assert_eq!(out, [1.0, 2.0]);
    assert_eq!(ring.available_read(), 1);
}

#[test]
fn written_rate_reads_back_from_pw_metadata_line() {
    for cmd in [RateCommand::Force(44100), RateCommand::Force(0), RateCommand::Force(u32::MAX), RateCommand::Clear] {
        let value = cmd.args()[4].clone();
        let line = format!("update: id:0 key:'clock.force-rate' value:'{}' type:''", value);
        let expected = match cmd {
            RateCommand::Force(r) => r,
            RateCommand::Clear => 0,
        };
        assert_eq!(parse_force_rate(&line), expected);
    }
}

#[test]
fn a_new_stream_makes_the_old_decoder_stale() {
    let mut ring: AudioState<i32> = AudioState::new(4, 0);
    let old = ring.generation();
    let new = ring.begin_new_stream(0);
    assert!(ring.is_stale(old));
    assert!(!ring.is_stale(new));
}
