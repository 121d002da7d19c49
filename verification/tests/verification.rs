use flint::job::{Action, Event, Step, Target};
use flint::message::{Message, Piece};
use flint::verification::{verify_flash, VerifyRun};

fn text_of(line: &Vec<Piece>) -> String {
    let mut t = String::new();
    for p in line {
        match p {
            Piece::Text(s) => t.push_str(s),
            _ => panic!("a line of a verification is plain text"),
        }
    }
    t
}

fn logs(told: &Vec<Message>) -> Vec<String> {
    let mut r = Vec::new();
    for m in told {
        if let Message::Log(line) = m {
            r.push(text_of(line));
        }
    }
    r
}

/// Runs a verification over two files in memory, and gives all that it reported.
fn run(image: &[u8], device: &[u8], size: u64, piece: usize) -> Vec<Message> {
    let (mut at, mut told) = verify_flash(size);
    let mut file: Vec<u8> = Vec::new();
    let mut place = 0;
    loop {
        let run: VerifyRun = match at {
            Step::Next(run) => run,
            Step::Ended(_) => return told,
        };
        let event = match run.pending() {
            Action::OpenTarget(Target::Image) => {
                file = image.to_vec();
                place = 0;
                Event::Ran
            }
            Action::OpenTarget(Target::Device) => {
                file = device.to_vec();
                place = 0;
                Event::Ran
            }
            Action::Poll => Event::Polled(false),
            Action::ReadTarget(n) => {
                assert!(n <= 1_048_576);
                let n = n.min(piece).min(file.len() - place);
                place += n;
                Event::Chunk(file[place - n..place].to_vec())
            }
            _ => panic!("a verification asks for nothing else"),
        };
        assert!(run.has_room(&event));
        let (next, more) = run.step(&event);
        at = next;
        told.extend(more);
    }
}

#[test]
fn verify_identical_files() {
    let data = b"hello world this is test data for verification";
    let results = run(data, data, data.len() as u64, 1_048_576);
    let has_ok = results.iter().any(|m| matches!(m, Message::VerifyDone(true, _)));
    assert!(has_ok, "Verification should pass for identical files");
}

#[test]
fn digests_are_logged_in_hexadecimal() {
    let told = run(b"abc", b"abd", 3, 2);
    assert_eq!(
        logs(&told),
        vec![
            "Verifying flash...".to_string(),
            "Source SHA256: ba7816bf8f01cfea414140de5dae2223b00361a396177a9cb410ff61f20015ad".to_string(),
            "Device SHA256: a52d159f262b2c6ddb724a61840befc36eb30c88877a4030b65cbe86298449c9".to_string(),
            "Verification FAILED - hashes differ".to_string(),
        ]
    );
    match told.last() {
        Some(Message::VerifyDone(false, t)) => {
            assert_eq!(t, "Verification FAILED - data may be corrupted")
        }
        _ => panic!("the last message tells the outcome"),
    }
}

#[test]
fn only_the_bytes_of_the_image_are_compared() {
    let told = run(b"abc", b"abcdef", 3, 1);
    match told.last() {
        Some(Message::VerifyDone(true, t)) => assert_eq!(t, "Flash verified successfully!"),
        _ => panic!("what follows the image on the device does not count"),
    }
    assert!(matches!(
        run(b"abc", b"ab", 3, 1).last(),
        Some(Message::VerifyDone(false, _))
    ));
}

#[test]
fn the_cut_into_reads_does_not_matter() {
    let data: Vec<u8> = (0..3_000_000u32).map(|i| (i % 251) as u8).collect();
    let a = logs(&run(&data, &data, data.len() as u64, 1_048_576));
    let b = logs(&run(&data, &data, data.len() as u64, 65_537));
    assert_eq!(a, b);
    assert_eq!(a[3], "Verification PASSED - hashes match");
}

#[test]
fn progress_rises_to_the_whole() {
    let told = run(b"abcd", b"abcd", 4, 1);
    let mut shares = Vec::new();
    for m in &told {
        if let Message::VerifyProgress(s) = m {
            shares.push((s.halves, s.done, s.total));
        }
    }
    assert_eq!(
        shares,
        vec![(0, 0, 1), (1, 0, 1), (1, 1, 4), (1, 2, 4), (1, 3, 4), (1, 4, 4), (2, 0, 1)]
    );
}

#[test]
fn nothing_to_verify_without_a_size() {
    let (at, told) = verify_flash(0);
    assert!(matches!(at, Step::Ended(false)));
    assert_eq!(logs(&told), vec!["Cannot verify: unknown size".to_string()]);
    match told.last() {
        Some(Message::VerifyDone(false, t)) => assert_eq!(t, "Verification skipped (unknown size)"),
        _ => panic!("the verification is skipped"),
    }
}

#[test]
fn a_cancelled_or_broken_verification_fails() {
    for event in [Event::Polled(true), Event::Polled(false)] {
        let (at, _) = verify_flash(5);
        let run = match at {
            Step::Next(run) => run,
            Step::Ended(_) => panic!("there is something to verify"),
        };
        let (at, _) = run.step(&Event::Ran);
        let run = match at {
            Step::Next(run) => run,
            Step::Ended(_) => panic!("the image was opened"),
        };
        let (at, told) = run.step(&event);
        let told = match at {
            Step::Next(run) => run.step(&Event::Failed("gone".to_string())).1,
            Step::Ended(_) => told,
        };
        assert_eq!(logs(&told), vec!["Verification cancelled or failed".to_string()]);
        match told.last() {
            Some(Message::VerifyDone(false, t)) => assert_eq!(t, "Verification failed"),
            _ => panic!("the verification failed"),
        }
    }
}
