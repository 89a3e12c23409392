use subtitle_tui::keys::{handle_key, intent_of, Intent, KeyCode, KeyInput, KeyMods};
use subtitle_tui::wizard::{App, BurnFormat, BurnUse, SourceMode, Step};

fn plain(code: KeyCode) -> KeyInput {
    KeyInput::plain(code)
}

fn ch(c: char) -> KeyInput {
    KeyInput::plain(KeyCode::Char(c))
}

fn ctrl(c: char) -> KeyInput {
    KeyInput {
        code: KeyCode::Char(c),
        modifiers: KeyMods { control: true, shift: false, alt: false, other: false },
    }
}

fn shift(c: char) -> KeyInput {
    KeyInput {
        code: KeyCode::Char(c),
        modifiers: KeyMods { control: false, shift: true, alt: false, other: false },
    }
}

fn at(step: Step) -> App {
    let mut app = App::new();
    app.step = step;
    app
}

const ALL_STEPS: [Step; 10] = [
    Step::Mode,
    Step::SrcPath,
    Step::YtUrl,
    Step::Lang,
    Step::Overwrite,
    Step::BurnIn,
    Step::BurnUse,
    Step::BurnFormat,
    Step::Summary,
    Step::Running,
];

#[test]
fn a_bare_q_quits_from_every_step() {
    for step in ALL_STEPS {
        let mut app = at(step);
        handle_key(&mut app, ch('q'), false);
        assert!(app.should_exit);
        assert_eq!(app.step, step);
        assert_eq!(app.src_path, "videos");
        assert_eq!(app.generated_command, None);
    }
}

#[test]
fn control_c_quits_from_every_step() {
    for step in ALL_STEPS {
        let mut app = at(step);
        handle_key(&mut app, ctrl('c'), false);
        assert!(app.should_exit);
        assert_eq!(app.step, step);
    }
}

#[test]
fn a_modified_q_is_an_ordinary_character() {
    let mut app = at(Step::SrcPath);
    handle_key(&mut app, shift('q'), false);
    assert!(!app.should_exit);
    assert_eq!(app.src_path, "videosq");
    let mut app = at(Step::SrcPath);
    handle_key(&mut app, ctrl('q'), false);
    assert!(!app.should_exit);
    assert_eq!(app.src_path, "videos");
}

#[test]
fn the_mode_step_chooses_with_the_vertical_keys() {
    let mut app = at(Step::Mode);
    handle_key(&mut app, plain(KeyCode::Down), false);
    assert_eq!(app.mode, SourceMode::YouTube);
    handle_key(&mut app, plain(KeyCode::Up), false);
    assert_eq!(app.mode, SourceMode::Local);
    handle_key(&mut app, ch('j'), false);
    assert_eq!(app.mode, SourceMode::YouTube);
    handle_key(&mut app, ch('k'), false);
    assert_eq!(app.mode, SourceMode::Local);
    assert_eq!(app.step, Step::Mode);
}

#[test]
fn the_mode_step_goes_on_with_enter_and_with_tab() {
    let mut app = at(Step::Mode);
    handle_key(&mut app, plain(KeyCode::Tab), false);
    assert_eq!(app.step, Step::SrcPath);
    let mut app = at(Step::Mode);
    handle_key(&mut app, plain(KeyCode::Enter), false);
    assert_eq!(app.step, Step::SrcPath);
    let mut app = at(Step::Mode);
    handle_key(&mut app, plain(KeyCode::Esc), false);
    assert_eq!(app.step, Step::Mode);
    assert!(!app.should_exit);
}

#[test]
fn enter_and_tab_advance_on_every_step_before_the_summary() {
    for step in ALL_STEPS {
        if matches!(step, Step::Summary | Step::Running) {
            continue;
        }
        for (mode, burn_in) in [
            (SourceMode::Local, false),
            (SourceMode::Local, true),
            (SourceMode::YouTube, false),
            (SourceMode::YouTube, true),
        ] {
            let mut expected = at(step);
            expected.mode = mode;
            expected.burn_in = burn_in;
            expected.next_step();
            for code in [KeyCode::Enter, KeyCode::Tab] {
                let mut app = at(step);
                app.mode = mode;
                app.burn_in = burn_in;
                handle_key(&mut app, plain(code), false);
                assert_eq!(app, expected);
            }
        }
    }
}

#[test]
fn escape_retreats_on_every_step() {
    for step in ALL_STEPS {
        let mut expected = at(step);
        expected.prev_step();
        let mut app = at(step);
        handle_key(&mut app, plain(KeyCode::Esc), false);
        assert_eq!(app, expected);
    }
}

#[test]
fn the_path_step_edits_the_path() {
    let mut app = at(Step::SrcPath);
    handle_key(&mut app, plain(KeyCode::Backspace), false);
    assert_eq!(app.src_path, "video");
    handle_key(&mut app, ch('/'), false);
    handle_key(&mut app, ch('a'), false);
    handle_key(&mut app, shift('B'), false);
    assert_eq!(app.src_path, "video/aB");
    assert_eq!(app.yt_url, "");
}

#[test]
fn the_path_step_rejects_control_characters_but_for_its_punctuation() {
    let mut app = at(Step::SrcPath);
    handle_key(&mut app, ctrl('a'), false);
    handle_key(&mut app, ctrl('w'), false);
    assert_eq!(app.src_path, "videos");
    for c in ['/', '.', '-', '_'] {
        handle_key(&mut app, ctrl(c), false);
    }
    assert_eq!(app.src_path, "videos/.-_");
}

#[test]
fn backspace_on_an_empty_text_does_nothing() {
    let mut app = at(Step::YtUrl);
    handle_key(&mut app, plain(KeyCode::Backspace), false);
    assert_eq!(app.yt_url, "");
    let mut app = at(Step::SrcPath);
    app.src_path.clear();
    handle_key(&mut app, plain(KeyCode::Backspace), false);
    assert_eq!(app.src_path, "");
}

#[test]
fn the_url_step_edits_the_url_and_rejects_every_control_character() {
    let mut app = at(Step::YtUrl);
    app.mode = SourceMode::YouTube;
    for c in "ab/".chars() {
        handle_key(&mut app, ch(c), false);
    }
    handle_key(&mut app, ctrl('/'), false);
    handle_key(&mut app, ctrl('v'), false);
    assert_eq!(app.yt_url, "ab/");
    handle_key(&mut app, plain(KeyCode::Backspace), false);
    assert_eq!(app.yt_url, "ab");
    assert_eq!(app.src_path, "videos");
}

#[test]
fn text_steps_move_with_enter_tab_and_escape() {
    let mut app = at(Step::SrcPath);
    handle_key(&mut app, plain(KeyCode::Tab), false);
    assert_eq!(app.step, Step::Lang);
    handle_key(&mut app, plain(KeyCode::Esc), false);
    assert_eq!(app.step, Step::SrcPath);
    handle_key(&mut app, plain(KeyCode::Enter), false);
    assert_eq!(app.step, Step::Lang);
    let mut app = at(Step::YtUrl);
    app.mode = SourceMode::YouTube;
    handle_key(&mut app, plain(KeyCode::Esc), false);
    assert_eq!(app.step, Step::SrcPath);
    handle_key(&mut app, plain(KeyCode::Enter), false);
    assert_eq!(app.step, Step::YtUrl);
    handle_key(&mut app, plain(KeyCode::Tab), false);
    assert_eq!(app.step, Step::Lang);
}

#[test]
fn the_language_index_stays_within_the_table() {
    let mut app = at(Step::Lang);
    handle_key(&mut app, plain(KeyCode::Up), false);
    assert_eq!(app.lang_index, 0);
    handle_key(&mut app, ch('k'), false);
    assert_eq!(app.lang_index, 0);
    for _ in 0..20 {
        handle_key(&mut app, plain(KeyCode::Down), false);
    }
    assert_eq!(app.lang_index, 8);
    handle_key(&mut app, ch('j'), false);
    assert_eq!(app.lang_index, 8);
    handle_key(&mut app, ch('k'), false);
    assert_eq!(app.lang_index, 7);
    handle_key(&mut app, ch('j'), false);
    assert_eq!(app.lang_index, 8);
}

#[test]
fn space_toggles_the_yes_no_steps() {
    let mut app = at(Step::Overwrite);
    handle_key(&mut app, ch(' '), false);
    assert!(app.overwrite);
    assert!(!app.burn_in);
    handle_key(&mut app, ch(' '), false);
    assert!(!app.overwrite);
    let mut app = at(Step::BurnIn);
    handle_key(&mut app, ch(' '), false);
    assert!(app.burn_in);
    assert!(!app.overwrite);
    handle_key(&mut app, plain(KeyCode::Enter), false);
    assert_eq!(app.step, Step::BurnUse);
}

#[test]
fn the_burn_steps_choose_with_the_horizontal_keys() {
    let mut app = at(Step::BurnUse);
    app.burn_in = true;
    handle_key(&mut app, plain(KeyCode::Right), false);
    assert_eq!(app.burn_use, BurnUse::Original);
    handle_key(&mut app, ch('h'), false);
    assert_eq!(app.burn_use, BurnUse::Translated);
    handle_key(&mut app, ch('l'), false);
    assert_eq!(app.burn_use, BurnUse::Original);
    handle_key(&mut app, plain(KeyCode::Left), false);
    assert_eq!(app.burn_use, BurnUse::Translated);
    assert_eq!(app.burn_format, BurnFormat::Mp4);
    handle_key(&mut app, plain(KeyCode::Tab), false);
    assert_eq!(app.step, Step::BurnFormat);
    handle_key(&mut app, plain(KeyCode::Right), false);
    assert_eq!(app.burn_format, BurnFormat::Webm);
    handle_key(&mut app, plain(KeyCode::Left), false);
    assert_eq!(app.burn_format, BurnFormat::Mp4);
    handle_key(&mut app, ch('l'), false);
    assert_eq!(app.burn_format, BurnFormat::Webm);
    assert_eq!(app.burn_use, BurnUse::Translated);
    handle_key(&mut app, plain(KeyCode::Esc), false);
    assert_eq!(app.step, Step::BurnUse);
}

#[test]
fn confirming_the_summary_generates_the_command() {
    for key in [plain(KeyCode::Enter), ch('r')] {
        let mut app = at(Step::Summary);
        handle_key(&mut app, key, false);
        assert!(app.should_exit);
        assert_eq!(
            app.generated_command,
            Some("subtitle-gen --src videos --lang zh".to_string())
        );
        assert_eq!(app.step, Step::Summary);
    }
    let mut app = at(Step::Summary);
    handle_key(&mut app, plain(KeyCode::Enter), true);
    assert_eq!(
        app.generated_command,
        Some("uv run subtitle-gen --src videos --lang zh".to_string())
    );
}

#[test]
fn tab_on_the_summary_stays_there_and_escape_goes_back() {
    let mut app = at(Step::Summary);
    handle_key(&mut app, plain(KeyCode::Tab), false);
    assert_eq!(app, at(Step::Summary));
    handle_key(&mut app, plain(KeyCode::Esc), false);
    assert_eq!(app.step, Step::BurnIn);
}

#[test]
fn keys_without_a_meaning_change_nothing() {
    for step in ALL_STEPS {
        for key in [plain(KeyCode::Other), ch('z'), plain(KeyCode::Left)] {
            if matches!(step, Step::SrcPath | Step::YtUrl | Step::BurnUse | Step::BurnFormat) {
                continue;
            }
            let mut app = at(step);
            handle_key(&mut app, key, false);
            assert_eq!(app.step, step);
            assert_eq!(app.mode, SourceMode::Local);
            assert_eq!(app.src_path, "videos");
            assert_eq!(app.yt_url, "");
            assert_eq!(app.lang_index, 0);
            assert!(!app.overwrite && !app.burn_in && !app.should_exit);
            assert_eq!(app.generated_command, None);
        }
    }
}

#[test]
fn a_whole_session_of_keys_builds_the_expected_command() {
    let mut app = App::new();
    let keys = [
        plain(KeyCode::Down),
        plain(KeyCode::Enter),
        plain(KeyCode::Backspace),
        plain(KeyCode::Enter),
        ch('h'),
        ch('t'),
        ch('t'),
        ch('p'),
        plain(KeyCode::Enter),
        plain(KeyCode::Down),
        plain(KeyCode::Enter),
        ch(' '),
        plain(KeyCode::Enter),
        ch(' '),
        plain(KeyCode::Enter),
        plain(KeyCode::Right),
        plain(KeyCode::Enter),
        plain(KeyCode::Right),
        plain(KeyCode::Enter),
    ];
    for key in keys {
        handle_key(&mut app, key, false);
    }
    assert_eq!(app.step, Step::Summary);
    handle_key(&mut app, plain(KeyCode::Enter), false);
    assert_eq!(
        app.generated_command,
        Some(
            "subtitle-gen --yt \"http\" --src video --lang en --overwrite --burn-in --burn-use original --burn-format webm"
                .to_string()
        )
    );
}

#[test]
fn the_wizard_never_stands_on_a_step_its_flags_rule_out() {
    let mut app = App::new();
    let keys = [
        plain(KeyCode::Down),
        plain(KeyCode::Enter),
        plain(KeyCode::Enter),
        plain(KeyCode::Esc),
        plain(KeyCode::Esc),
        plain(KeyCode::Up),
        plain(KeyCode::Enter),
        plain(KeyCode::Enter),
        plain(KeyCode::Enter),
        plain(KeyCode::Enter),
        ch(' '),
        plain(KeyCode::Enter),
        plain(KeyCode::Esc),
        ch(' '),
        plain(KeyCode::Enter),
        plain(KeyCode::Esc),
    ];
    for key in keys {
        handle_key(&mut app, key, false);
        match app.step {
            Step::YtUrl => assert_eq!(app.mode, SourceMode::YouTube),
            Step::BurnUse | Step::BurnFormat => assert!(app.burn_in),
            Step::Running => panic!("no key leads to the running step"),
            _ => {}
        }
    }
    assert_eq!(app.step, Step::BurnIn);
}

#[test]
fn the_running_step_reads_cancel_and_back() {
    assert_eq!(intent_of(Step::Running, &ch('x')), Intent::Cancel);
    assert_eq!(intent_of(Step::Running, &ch('c')), Intent::Cancel);
    assert_eq!(intent_of(Step::Running, &ctrl('c')), Intent::Quit);
    assert_eq!(intent_of(Step::Running, &plain(KeyCode::Esc)), Intent::Back);
    assert_eq!(intent_of(Step::Running, &plain(KeyCode::Enter)), Intent::Ignore);
    assert_eq!(intent_of(Step::Running, &ch('r')), Intent::Ignore);
}

#[test]
fn keys_are_read_by_step() {
    assert_eq!(intent_of(Step::Mode, &plain(KeyCode::Up)), Intent::PickFirst);
    assert_eq!(intent_of(Step::Lang, &plain(KeyCode::Up)), Intent::Previous);
    assert_eq!(intent_of(Step::Lang, &plain(KeyCode::Down)), Intent::Following);
    assert_eq!(intent_of(Step::BurnUse, &plain(KeyCode::Up)), Intent::Ignore);
    assert_eq!(intent_of(Step::SrcPath, &ch('k')), Intent::Insert('k'));
    assert_eq!(intent_of(Step::Overwrite, &ch(' ')), Intent::Toggle);
    assert_eq!(intent_of(Step::Summary, &ch('r')), Intent::Run);
    assert_eq!(intent_of(Step::Summary, &ch(' ')), Intent::Ignore);
    assert_eq!(intent_of(Step::Summary, &plain(KeyCode::Tab)), Intent::Confirm);
    assert_eq!(intent_of(Step::Mode, &plain(KeyCode::Tab)), Intent::Confirm);
    assert_eq!(intent_of(Step::Mode, &plain(KeyCode::Esc)), Intent::Back);
    assert_eq!(intent_of(Step::YtUrl, &plain(KeyCode::Backspace)), Intent::Erase);
}

#[test]
fn apply_ignores_an_intent_that_has_no_meaning_on_the_step() {
    let mut app = at(Step::Mode);
    app.apply(Intent::Insert('x'), false);
    app.apply(Intent::Erase, false);
    app.apply(Intent::Toggle, false);
    app.apply(Intent::Following, false);
    app.apply(Intent::Run, false);
    app.apply(Intent::Cancel, false);
    assert_eq!(app.src_path, "videos");
    assert_eq!(app.lang_index, 0);
    assert!(!app.overwrite && !app.burn_in && !app.should_exit);
    assert_eq!(app.generated_command, None);
    assert_eq!(app.step, Step::Mode);
}

#[test]
fn no_modifiers_means_empty() {
    assert!(KeyMods::none().is_empty());
    assert!(!KeyMods { control: false, shift: false, alt: true, other: false }.is_empty());
    assert!(!KeyMods { control: false, shift: false, alt: false, other: true }.is_empty());
}
