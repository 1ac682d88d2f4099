//! Transaction transcripts of the lifecycle and frame operations.

use epd1in54b::command::Command;
use epd1in54b::driver::Epd1in54b;
use epd1in54b::interface::DisplayInterface;
use epd1in54b::transaction::Transaction;

/// The transcript of the addressing-window preamble for the full panel
/// extent, followed by a cursor reset to the origin.
fn full_frame_preamble() -> Vec<Transaction> {
    vec![
        Transaction::WaitUntilIdle(false),
        Transaction::Cmd(Command::SetRamXAddressStartEndPosition),
        Transaction::Data(vec![0x00, 0x18]),
        Transaction::Cmd(Command::SetRamYAddressStartEndPosition),
        Transaction::Data(vec![0x00, 0x00, 0xC7, 0x00]),
        Transaction::WaitUntilIdle(false),
        Transaction::Cmd(Command::SetRamXAddressCounter),
        Transaction::Data(vec![0x00]),
        Transaction::Cmd(Command::SetRamYAddressCounter),
        Transaction::Data(vec![0x00, 0x00]),
    ]
}

fn init_transcript() -> Vec<Transaction> {
    let mut expected = vec![
        Transaction::Reset(10_000, 10_000),
        Transaction::WaitUntilIdle(false),
        Transaction::Cmd(Command::SwReset),
        Transaction::WaitUntilIdle(false),
        Transaction::Cmd(Command::DriverOutputControl),
        Transaction::Data(vec![0xC7, 0x00, 0x00]),
        Transaction::Cmd(Command::DataEntryModeSetting),
        Transaction::Data(vec![0x03]),
        Transaction::WaitUntilIdle(false),
        Transaction::Cmd(Command::SetRamXAddressStartEndPosition),
        Transaction::Data(vec![0x00, 0x18]),
        Transaction::Cmd(Command::SetRamYAddressStartEndPosition),
        Transaction::Data(vec![0x00, 0x00, 0xC7, 0x00]),
        Transaction::Cmd(Command::BorderWaveformControl),
        Transaction::Data(vec![0x05]),
        Transaction::Cmd(Command::TemperatureSensorSelection),
        Transaction::Data(vec![0x80]),
        Transaction::Cmd(Command::TemperatureSensorControl),
        Transaction::Data(vec![0xB1, 0x20]),
        Transaction::WaitUntilIdle(false),
        Transaction::Cmd(Command::SetRamXAddressCounter),
        Transaction::Data(vec![0x00]),
        Transaction::Cmd(Command::SetRamYAddressCounter),
        Transaction::Data(vec![0x00, 0x00]),
    ];
    expected.push(Transaction::WaitUntilIdle(false));
    expected
}

#[test]
fn construction_runs_full_init_sequence() {
    let mut bus = DisplayInterface::new();
    let _epd = Epd1in54b::new(&mut bus);
    assert_eq!(bus.transactions(), &init_transcript());
}

#[test]
fn wake_up_issues_the_init_transcript() {
    let mut bus = DisplayInterface::new();
    let mut epd = Epd1in54b::new(&mut bus);
    let booted = bus.transactions().clone();
    bus.clear();
    epd.wake_up(&mut bus).unwrap();
    assert_eq!(bus.transactions(), &booted);
    assert_eq!(bus.transactions(), &init_transcript());
}

#[test]
fn sleep_transcript() {
    let mut bus = DisplayInterface::new();
    let mut epd = Epd1in54b::new(&mut bus);
    bus.clear();
    epd.sleep(&mut bus).unwrap();
    assert_eq!(
        bus.transactions(),
        &vec![
            Transaction::WaitUntilIdle(false),
            Transaction::Cmd(Command::DeepSleepMode),
            Transaction::Data(vec![0x01]),
        ]
    );
}

#[test]
fn display_frame_transcript() {
    let mut bus = DisplayInterface::new();
    let mut epd = Epd1in54b::new(&mut bus);
    bus.clear();
    epd.display_frame(&mut bus).unwrap();
    assert_eq!(
        bus.transactions(),
        &vec![
            Transaction::WaitUntilIdle(false),
            Transaction::Cmd(Command::DisplayUpdateControl2),
            Transaction::Data(vec![0xF7]),
            Transaction::Cmd(Command::MasterActivation),
            Transaction::Cmd(Command::Nop),
        ]
    );
}

#[test]
fn master_activation_is_immediately_followed_by_nop() {
    let mut bus = DisplayInterface::new();
    let mut epd = Epd1in54b::new(&mut bus);
    bus.clear();
    epd.display_frame(&mut bus).unwrap();
    let log = bus.transactions();
    let mut seen = 0;
    for (i, t) in log.iter().enumerate() {
        if *t == Transaction::Cmd(Command::MasterActivation) {
            seen += 1;
            assert!(i + 1 < log.len());
            assert_eq!(log[i + 1], Transaction::Cmd(Command::Nop));
        }
    }
    assert_eq!(seen, 1);
}

#[test]
fn update_frame_transcript() {
    let mut bus = DisplayInterface::new();
    let mut epd = Epd1in54b::new(&mut bus);
    bus.clear();
    let buffer = vec![0xAB; 5000];
    epd.update_frame(&mut bus, &buffer).unwrap();
    let mut expected = vec![Transaction::WaitUntilIdle(false)];
    expected.extend(full_frame_preamble());
    expected.push(Transaction::Cmd(Command::WriteRam));
    expected.push(Transaction::Data(buffer));
    assert_eq!(bus.transactions(), &expected);
}

#[test]
fn update_color_frame_writes_both_planes() {
    let mut bus = DisplayInterface::new();
    let mut epd = Epd1in54b::new(&mut bus);
    bus.clear();
    let black = vec![0x12; 5000];
    let chromatic = vec![0x34; 5000];
    epd.update_color_frame(&mut bus, &black, &chromatic).unwrap();
    let mut expected = vec![Transaction::WaitUntilIdle(false)];
    expected.extend(full_frame_preamble());
    expected.push(Transaction::Cmd(Command::WriteRam));
    expected.push(Transaction::Data(black));
    expected.push(Transaction::WaitUntilIdle(false));
    expected.extend(full_frame_preamble());
    expected.push(Transaction::Cmd(Command::WriteRam2));
    expected.push(Transaction::Data(chromatic));
    assert_eq!(bus.transactions(), &expected);
}

#[test]
fn update_and_display_frame_composes_write_then_refresh() {
    let mut bus = DisplayInterface::new();
    let mut epd = Epd1in54b::new(&mut bus);
    bus.clear();
    let buffer = vec![0x55; 5000];
    epd.update_and_display_frame(&mut bus, &buffer).unwrap();

    let mut separate = DisplayInterface::new();
    let mut epd2 = Epd1in54b::new(&mut separate);
    separate.clear();
    epd2.update_frame(&mut separate, &buffer).unwrap();
    epd2.display_frame(&mut separate).unwrap();

    assert_eq!(bus.transactions(), separate.transactions());
}
