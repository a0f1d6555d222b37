use buzzer_control_webserver::driver::Received;
use buzzer_control_webserver::matrix_display::{
    animation_frame, startup_commands, DisplayCommand, MatrixDisplayDriver, MatrixDisplayMode,
};

#[test]
fn startup_powers_on_clears_and_brightens_each_display() {
    assert_eq!(
        startup_commands(),
        vec![
            DisplayCommand::PowerOn,
            DisplayCommand::ClearDisplay(0),
            DisplayCommand::SetIntensity { display: 0, level: 15 },
            DisplayCommand::ClearDisplay(1),
            DisplayCommand::SetIntensity { display: 1, level: 15 },
            DisplayCommand::ClearDisplay(2),
            DisplayCommand::SetIntensity { display: 2, level: 15 },
            DisplayCommand::ClearDisplay(3),
            DisplayCommand::SetIntensity { display: 3, level: 15 },
        ]
    );
}

#[test]
fn steady_modes() {
    let mut d = MatrixDisplayDriver::new();
    assert_eq!(
        d.step(Received::Message(MatrixDisplayMode::AllOn), 0),
        DisplayCommand::WriteRaw { display: 0, rows: [0xFF; 8] }
    );
    assert_eq!(
        d.step(Received::Message(MatrixDisplayMode::AllOff), 0),
        DisplayCommand::WriteRaw { display: 0, rows: [0; 8] }
    );
    assert_eq!(
        d.step(Received::Message(MatrixDisplayMode::Brightness(5)), 0),
        DisplayCommand::SetIntensity { display: 0, level: 5 }
    );
    assert_eq!(
        d.step(Received::Message(MatrixDisplayMode::Brightness(200)), 0),
        DisplayCommand::SetIntensity { display: 0, level: 15 }
    );
    assert_eq!(d.state().next_update, None);
    assert_eq!(d.step(Received::Disconnected, 0), DisplayCommand::PowerOff);
}

#[test]
fn animation_bounces_between_the_first_and_last_frame() {
    let mut d = MatrixDisplayDriver::new();
    let mut shown = Vec::new();
    let mut now = 1000u64;
    let cmd = d.step(Received::Message(MatrixDisplayMode::Animation), now);
    shown.push(cmd);
    for _ in 0..14 {
        now += 121;
        shown.push(d.step(Received::Timeout, now));
    }
    let indices: Vec<usize> = vec![1, 2, 3, 4, 5, 6, 7, 6, 5, 4, 3, 2, 1, 0, 1];
    let expected: Vec<DisplayCommand> = indices
        .iter()
        .map(|&i| DisplayCommand::WriteRaw { display: 0, rows: animation_frame(i) })
        .collect();
    assert_eq!(shown, expected);
    let s = d.state();
    assert_eq!(s.animation_index, 1);
    assert_eq!(s.animation_inc, 1);
    assert_eq!(s.next_update, Some(1000 + 15 * 120));
}

#[test]
fn animation_frames_are_the_image_table() {
    assert_eq!(animation_frame(0), [0x01, 0x02, 0x04, 0x08, 0x10, 0x20, 0x40, 0x80]);
    assert_eq!(animation_frame(3), [0x08, 0x1C, 0x3E, 0x7F, 0xFE, 0x7C, 0x38, 0x10]);
    assert_eq!(animation_frame(7), [0x80, 0x40, 0x20, 0x10, 0x08, 0x04, 0x02, 0x01]);
}

#[test]
fn animation_resumes_where_it_stopped() {
    let mut d = MatrixDisplayDriver::new();
    d.step(Received::Message(MatrixDisplayMode::Animation), 0);
    d.step(Received::Timeout, 120);
    d.step(Received::Message(MatrixDisplayMode::AllOff), 130);
    assert_eq!(d.state().animation_index, 2);
    assert_eq!(
        d.step(Received::Message(MatrixDisplayMode::Animation), 500),
        DisplayCommand::WriteRaw { display: 0, rows: animation_frame(3) }
    );
    assert_eq!(d.state().next_update, Some(620));
}

#[test]
fn any_run_writes_only_known_rows() {
    let mut d = MatrixDisplayDriver::new();
    let frames: Vec<[u8; 8]> = (0..8).map(animation_frame).collect();
    let modes = [
        MatrixDisplayMode::Animation,
        MatrixDisplayMode::Brightness(99),
        MatrixDisplayMode::Animation,
        MatrixDisplayMode::AllOn,
        MatrixDisplayMode::Animation,
    ];
    let mut now = 0u64;
    for (k, m) in modes.iter().enumerate() {
        d.step(Received::Message(*m), now);
        for _ in 0..(k * 5 + 3) {
            now += 120;
            let cmd = d.step(Received::Timeout, now);
            match cmd {
                DisplayCommand::WriteRaw { display, rows } => {
                    assert_eq!(display, 0);
                    assert!(rows == [0; 8] || rows == [0xFF; 8] || frames.contains(&rows));
                }
                DisplayCommand::SetIntensity { display, level } => {
                    assert_eq!(display, 0);
                    assert!(level <= 15);
                }
                other => panic!("unexpected command {:?}", other),
            }
            let s = d.state();
            assert!((0..=7).contains(&s.animation_index));
        }
    }
}
