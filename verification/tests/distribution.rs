use monitoring_sender::engine::{
    process_with_snapshot, AuxOutputs, BufferConfig, MonitoringSender, ProcessMode, ProcessStatus,
    StereoFrame,
};
use monitoring_sender::params::destination_label;

// Samples in these tests use a micro scale: 1_000_000 stands for full scale.
const FULL: i64 = 1_000_000;

fn frame(left: i64, right: i64) -> StereoFrame {
    StereoFrame { left, right }
}

fn zeroes(len: usize) -> Vec<StereoFrame> {
    vec![frame(0, 0); len]
}

fn test_input() -> Vec<StereoFrame> {
    vec![
        frame(FULL, FULL),
        frame(FULL / 2, -FULL / 2),
        frame(0, 0),
        frame(-FULL, FULL),
    ]
}

fn aux_of(len: usize) -> AuxOutputs {
    AuxOutputs { foh: zeroes(len), axel: zeroes(len), sebi: zeroes(len), volki: zeroes(len) }
}

fn realtime_config() -> BufferConfig {
    BufferConfig {
        sample_rate_hz: 48_000,
        min_buffer_size: None,
        max_buffer_size: 64,
        process_mode: ProcessMode::Realtime,
    }
}

// A sender carrying the gains of the end-to-end scenario: 0 dB, 6 dB,
// -144 dB and -24 dB, in destination order.
fn configured_sender(mode: ProcessMode) -> MonitoringSender {
    let mut sender = MonitoringSender::new();
    let accepted = sender.initialize(&BufferConfig { process_mode: mode, ..realtime_config() });
    assert!(accepted);
    sender.params.foh.set_from_text("0.00 dB").unwrap();
    sender.params.axel.set_from_text("6.00 dB").unwrap();
    sender.params.sebi.set_from_text("-144.00 dB").unwrap();
    sender.params.volki.set_from_text("-24.00 dB").unwrap();
    sender
}

#[test]
fn end_to_end_scenario() {
    let mut sender = configured_sender(ProcessMode::Realtime);
    let mut main_io = test_input();
    let mut aux = aux_of(main_io.len());
    let status = sender.process(&mut main_io, &mut aux);
    assert_eq!(status, ProcessStatus::Normal);
    // The main output is the input, bit for bit.
    assert_eq!(main_io, test_input());
    // Destination 0 at 0 dB: the input unchanged (unity gain is exact at this
    // scale).
    assert_eq!(aux.foh, test_input());
    // Destination 1 at 6 dB: the input scaled by about 1.9953.
    let near = |got: i64, expect: i64| {
        (got - expect).abs() <= expect.abs() / 1000 + 2
    };
    assert!(near(aux.axel[0].left, 1_995_262) && near(aux.axel[0].right, 1_995_262));
    assert!(near(aux.axel[1].left, 997_631) && near(aux.axel[1].right, -997_631));
    assert_eq!(aux.axel[2], frame(0, 0));
    assert!(near(aux.axel[3].left, -1_995_262) && near(aux.axel[3].right, 1_995_262));
    // Destination 2 at -144 dB: silence at this sample scale.
    assert_eq!(aux.sebi, zeroes(4));
    // Destination 3 at -24 dB: the input scaled by about 0.0631.
    assert!(near(aux.volki[0].left, 63_095) && near(aux.volki[0].right, 63_095));
    assert!(near(aux.volki[1].left, 31_547) && near(aux.volki[1].right, -31_547));
    assert_eq!(aux.volki[2], frame(0, 0));
    assert!(near(aux.volki[3].left, -63_095) && near(aux.volki[3].right, 63_095));
}

#[test]
fn offline_mode_touches_nothing() {
    let mut sender = configured_sender(ProcessMode::Offline);
    let mut main_io = test_input();
    let sentinel = vec![frame(7, -7); 4];
    let mut aux = AuxOutputs {
        foh: sentinel.clone(),
        axel: sentinel.clone(),
        sebi: sentinel.clone(),
        volki: sentinel.clone(),
    };
    let status = sender.process(&mut main_io, &mut aux);
    assert_eq!(status, ProcessStatus::Normal);
    assert_eq!(main_io, test_input());
    assert_eq!(aux.foh, sentinel);
    assert_eq!(aux.axel, sentinel);
    assert_eq!(aux.sebi, sentinel);
    assert_eq!(aux.volki, sentinel);
}

#[test]
fn block_uses_the_snapshot_taken_at_its_start() {
    let mut sender = configured_sender(ProcessMode::Realtime);
    // The snapshot is taken at block start, while front of house is at 0 dB.
    let snapshot = sender.params.snapshot();
    // The control moves mid-block, long before the block is distributed.
    sender.params.foh.set_from_text("-144.00 dB").unwrap();
    let mut main_io = test_input();
    let mut aux = aux_of(main_io.len());
    process_with_snapshot(&snapshot, &mut main_io, &mut aux);
    // Every sample of the block, the last included, still carries the 0 dB
    // gain the snapshot held.
    assert_eq!(aux.foh, test_input());
    assert_ne!(aux.foh, zeroes(4));
}

#[test]
fn initialize_always_accepts_and_reset_changes_nothing() {
    let mut sender = MonitoringSender::new();
    assert!(sender.initialize(&realtime_config()));
    let amp_before = sender.params().foh.amplitude();
    sender.reset();
    assert_eq!(sender.params().foh.amplitude(), amp_before);
    assert_eq!(sender.params().volki.display().as_str(), "0.00 dB");
}

#[test]
fn destination_labels_are_stable() {
    assert_eq!(destination_label(0), "FOH");
    assert_eq!(destination_label(1), "Axel");
    assert_eq!(destination_label(2), "Sebi");
    assert_eq!(destination_label(3), "Volki");
}

#[test]
fn empty_block_is_a_no_op() {
    let mut sender = configured_sender(ProcessMode::Realtime);
    let mut main_io: Vec<StereoFrame> = Vec::new();
    let mut aux = aux_of(0);
    assert_eq!(sender.process(&mut main_io, &mut aux), ProcessStatus::Normal);
    assert!(aux.foh.is_empty() && aux.axel.is_empty() && aux.sebi.is_empty() && aux.volki.is_empty());
}

#[test]
fn full_scale_and_silence_pass_the_same_multiply() {
    let mut sender = configured_sender(ProcessMode::Realtime);
    sender.params.foh.set_from_text("12.00 dB").unwrap();
    let mut main_io = vec![frame(FULL, 0), frame(0, -FULL)];
    let mut aux = aux_of(2);
    sender.process(&mut main_io, &mut aux);
    // +12 dB is about 3.981 times unity; silence stays exactly silent.
    let got = aux.foh[0].left;
    assert!((3_977_000..=3_985_000).contains(&got), "got {}", got);
    assert_eq!(aux.foh[0].right, 0);
    assert_eq!(aux.foh[1].left, 0);
    let got = aux.foh[1].right;
    assert!((-3_985_000..=-3_977_000).contains(&got), "got {}", got);
}
