use subtitle_tui::layout::{Area, ScreenAreas};
use subtitle_tui::log::LogEvent;
use subtitle_tui::session::{ChildStatus, Session, Strategy};
use subtitle_tui::view::{
    compose, hint_line, hint_words, q_line, render_burn_format, render_burn_use, render_burnin,
    render_lang, render_mode, render_overwrite, render_running, render_src_path, render_summary,
    render_yt_url, title_line, ui, Body, Line, Tone, Wrap,
};
use subtitle_tui::wizard::{App, BurnFormat, BurnUse, SourceMode, Step};

fn show(line: &Line) -> String {
    line.iter()
        .map(|s| {
            let tone = match s.tone {
                Tone::Plain => "",
                Tone::Cyan => "cyan",
                Tone::Yellow => "yellow",
                Tone::Green => "green",
                Tone::Gray => "gray",
                Tone::DarkGray => "darkgray",
                Tone::Red => "red",
            };
            format!("[{}{}|{}]", tone, if s.bold { "*" } else { "" }, s.text)
        })
        .collect()
}

fn show_all(lines: &[Line]) -> Vec<String> {
    lines.iter().map(show).collect()
}

const BODY: Area = Area { x: 0, y: 1, width: 80, height: 23 };

#[test]
fn a_question_is_bold_behind_a_green_mark() {
    assert_eq!(show(&q_line("Why?")), "[green*|? ][*|Why?]");
}

#[test]
fn the_title_names_the_program() {
    assert_eq!(
        show(&title_line()),
        "[cyan*|subtitle-tui ][|— an interactive wizard for subtitle generator]"
    );
}

#[test]
fn every_step_has_its_hint() {
    assert_eq!(
        hint_words(Step::Mode, false),
        "Use Up/Down to choose. Enter to continue. Ctrl+C to quit."
    );
    assert_eq!(
        hint_words(Step::SrcPath, false),
        "Type to edit. Enter to continue. Esc to go back. Ctrl+C to quit."
    );
    assert_eq!(hint_words(Step::YtUrl, false), "Enter to continue. Esc to go back. Ctrl+C to quit.");
    assert_eq!(
        hint_words(Step::Lang, false),
        "Use Up/Down to select. Enter to continue. Esc to go back. Ctrl+C to quit."
    );
    for step in [Step::Overwrite, Step::BurnIn] {
        assert_eq!(
            hint_words(step, false),
            "Space to toggle. Enter to continue. Esc to go back. Ctrl+C to quit."
        );
    }
    for step in [Step::BurnUse, Step::BurnFormat] {
        assert_eq!(
            hint_words(step, true),
            "Left/Right to choose. Enter to continue. Esc to go back. Ctrl+C to quit."
        );
    }
    assert_eq!(
        hint_words(Step::Summary, false),
        "Press Enter to generate and exit. Esc to go back. Ctrl+C to quit."
    );
    assert_eq!(hint_words(Step::Summary, true), "Press Enter to run. Esc to go back. Ctrl+C to quit.");
    assert_eq!(
        hint_words(Step::Running, true),
        "Press x to cancel. Esc to go back once finished. Ctrl+C to quit."
    );
}

#[test]
fn the_hint_line_is_dark_gray() {
    let mut app = App::new();
    app.step = Step::YtUrl;
    assert_eq!(
        show(&hint_line(&app, false)),
        "[darkgray|Enter to continue. Esc to go back. Ctrl+C to quit.]"
    );
}

#[test]
fn the_mode_step_marks_the_chosen_option() {
    let mut app = App::new();
    let screen = render_mode(&app);
    assert_eq!(screen.wrap, Wrap::Trim);
    assert_eq!(
        show_all(&screen.lines),
        vec![
            "[green*|? ][*|How do you want to get videos?]",
            "[|]",
            "[yellow|› ][|Use a local folder]",
            "[|  Download from YouTube]",
            "[|]",
            "[darkgray|Use Up/Down to choose. Enter to continue. Ctrl+C to quit.]",
        ]
    );
    app.mode = SourceMode::YouTube;
    let screen = render_mode(&app);
    assert_eq!(show(&screen.lines[2]), "[|  Use a local folder]");
    assert_eq!(show(&screen.lines[3]), "[yellow|› ][|Download from YouTube]");
}

#[test]
fn the_path_step_asks_according_to_the_mode() {
    let mut app = App::new();
    app.step = Step::SrcPath;
    let screen = render_src_path(&app);
    assert_eq!(screen.wrap, Wrap::Keep);
    assert_eq!(
        show_all(&screen.lines),
        vec![
            "[green*|? ][*|Where are the videos located?]",
            "[|]",
            "[|Path: ][green|videos]",
            "[|]",
            "[darkgray|Type to edit. Enter to continue. Esc to go back. Ctrl+C to quit.]",
        ]
    );
    app.mode = SourceMode::YouTube;
    assert_eq!(
        show(&render_src_path(&app).lines[0]),
        "[green*|? ][*|Where should downloaded videos be saved?]"
    );
}

#[test]
fn the_url_step_shows_the_url_as_typed() {
    let mut app = App::new();
    app.step = Step::YtUrl;
    app.yt_url = " https://x ".to_string();
    let screen = render_yt_url(&app);
    assert_eq!(screen.wrap, Wrap::Keep);
    assert_eq!(show(&screen.lines[0]), "[green*|? ][*|Paste a YouTube URL]");
    assert_eq!(show(&screen.lines[2]), "[|URL: ][green| https://x ]");
    assert_eq!(screen.lines.len(), 5);
}

#[test]
fn yes_is_green_and_no_is_gray() {
    let mut app = App::new();
    app.step = Step::Overwrite;
    let screen = render_overwrite(&app);
    assert_eq!(screen.wrap, Wrap::Off);
    assert_eq!(show(&screen.lines[0]), "[green*|? ][*|Overwrite existing results if found?]");
    assert_eq!(show(&screen.lines[2]), "[gray|No]");
    app.overwrite = true;
    assert_eq!(show(&render_overwrite(&app).lines[2]), "[green|Yes]");
    app.step = Step::BurnIn;
    let screen = render_burnin(&app);
    assert_eq!(
        show(&screen.lines[0]),
        "[green*|? ][*|Do you want to burn subtitles into the video?]"
    );
    assert_eq!(show(&screen.lines[2]), "[gray|No]");
    app.burn_in = true;
    assert_eq!(show(&render_burnin(&app).lines[2]), "[green|Yes]");
}

#[test]
fn the_burn_steps_mark_the_chosen_option() {
    let mut app = App::new();
    app.step = Step::BurnUse;
    let screen = render_burn_use(&app);
    assert_eq!(
        show_all(&screen.lines[..4]),
        vec![
            "[green*|? ][*|Which subtitles should be burned?]",
            "[|]",
            "[yellow|› ][|Translated]",
            "[|  Original]",
        ]
    );
    app.burn_use = BurnUse::Original;
    assert_eq!(show(&render_burn_use(&app).lines[3]), "[yellow|› ][|Original]");
    app.step = Step::BurnFormat;
    let screen = render_burn_format(&app);
    assert_eq!(
        show_all(&screen.lines[..4]),
        vec![
            "[green*|? ][*|What output format for burned video?]",
            "[|]",
            "[yellow|› ][|MP4]",
            "[|  WebM]",
        ]
    );
    app.burn_format = BurnFormat::Webm;
    assert_eq!(show(&render_burn_format(&app).lines[2]), "[|  MP4]");
    assert_eq!(show(&render_burn_format(&app).lines[3]), "[yellow|› ][|WebM]");
}

#[test]
fn the_language_step_lists_the_table_with_the_chosen_entry_yellow() {
    let mut app = App::new();
    app.step = Step::Lang;
    app.lang_index = 2;
    let screen = render_lang(&app, BODY);
    assert_eq!(
        show_all(&screen.heading),
        vec!["[green*|? ][*|What's the target language?]", "[|]"]
    );
    assert_eq!(
        show_all(&screen.items),
        vec![
            "[|Chinese (zh)]",
            "[|English (en)]",
            "[yellow|Japanese (ja)]",
            "[|Korean (ko)]",
            "[|Spanish (es)]",
            "[|French (fr)]",
            "[|German (de)]",
            "[|Portuguese (pt)]",
            "[|No translation ()]",
        ]
    );
    assert_eq!(
        show_all(&screen.footer),
        vec![
            "[|]",
            "[darkgray|Use Up/Down to select. Enter to continue. Esc to go back. Ctrl+C to quit.]",
        ]
    );
    assert_eq!(screen.areas.heading, Area { x: 0, y: 1, width: 80, height: 2 });
    assert_eq!(screen.areas.list, Area { x: 0, y: 3, width: 80, height: 19 });
    assert_eq!(screen.areas.footer, Area { x: 0, y: 22, width: 80, height: 2 });
}

#[test]
fn the_summary_shows_the_command() {
    let mut app = App::new();
    app.step = Step::Summary;
    let screen = render_summary(&app, true, false);
    assert_eq!(screen.wrap, Wrap::Keep);
    assert_eq!(
        show_all(&screen.lines),
        vec![
            "[*|Summary]",
            "[|]",
            "[|Generated command:]",
            "[|]",
            "[cyan|uv run subtitle-gen --src videos --lang zh]",
            "[|]",
            "[|Press Enter to generate command and exit]",
            "[|]",
            "[darkgray|Press Enter to generate and exit. Esc to go back. Ctrl+C to quit.]",
        ]
    );
}

#[test]
fn the_summary_reports_a_failed_launch() {
    let mut app = App::new();
    app.step = Step::Summary;
    app.last_error = Some("cannot start subtitle-gen".to_string());
    let screen = render_summary(&app, false, true);
    assert_eq!(
        show_all(&screen.lines[4..]),
        vec![
            "[cyan|subtitle-gen --src videos --lang zh]",
            "[|]",
            "[|Press Enter to run the command]",
            "[|]",
            "[red|cannot start subtitle-gen]",
            "[|]",
            "[darkgray|Press Enter to run. Esc to go back. Ctrl+C to quit.]",
        ]
    );
}

#[test]
fn the_running_step_shows_the_newest_lines() {
    let mut session = Session::start(Strategy::Pty);
    for i in 0..30 {
        session.log.apply(LogEvent::Append(format!("line {}", i)));
    }
    let screen = render_running(&Some(session), BODY);
    assert_eq!(screen.areas.list.height, 19);
    assert_eq!(screen.items.len(), 19);
    assert_eq!(show(&screen.items[0]), "[|line 11]");
    assert_eq!(show(&screen.items[18]), "[|line 29]");
    assert_eq!(
        show_all(&screen.heading),
        vec!["[green*|? ][*|Running the command]", "[|]"]
    );
    assert_eq!(
        show(&screen.footer[1]),
        "[darkgray|Press x to cancel. Esc to go back once finished. Ctrl+C to quit.]"
    );
}

#[test]
fn a_short_log_is_shown_whole() {
    let mut session = Session::start(Strategy::Piped);
    session.log.apply(LogEvent::Append("only".to_string()));
    session.finished = true;
    let screen = render_running(&Some(session), BODY);
    assert_eq!(show_all(&screen.items), vec!["[|only]"]);
    assert_eq!(show(&screen.heading[0]), "[green*|? ][*|The command has finished]");
    let none = render_running(&None, BODY);
    assert!(none.items.is_empty());
    let cramped = Area { x: 0, y: 0, width: 10, height: 4 };
    let mut session = Session::start(Strategy::Piped);
    session.log.apply(LogEvent::Append("hidden".to_string()));
    assert!(render_running(&Some(session), cramped).items.is_empty());
}

#[test]
fn the_screen_shows_the_body_of_the_current_step() {
    let areas = ScreenAreas { title: Area { x: 0, y: 0, width: 80, height: 1 }, body: BODY };
    let mut app = App::new();
    let steps = [
        (Step::Mode, false),
        (Step::SrcPath, false),
        (Step::YtUrl, false),
        (Step::Lang, true),
        (Step::Overwrite, false),
        (Step::BurnIn, false),
        (Step::BurnUse, false),
        (Step::BurnFormat, false),
        (Step::Summary, false),
        (Step::Running, true),
    ];
    for (step, is_list) in steps {
        app.step = step;
        let screen = compose(&app, &None, areas, false, false);
        assert_eq!(screen.areas, areas);
        assert_eq!(show(&screen.title), show(&title_line()));
        match (&screen.body, is_list) {
            (Body::List(list), true) => assert_eq!(list.areas.list.height, 19),
            (Body::Text(text), false) => {
                assert_eq!(show(text.lines.last().unwrap()), show(&hint_line(&app, false)))
            }
            _ => panic!("wrong kind of body for {:?}", step),
        }
    }
}

#[test]
fn the_screen_is_laid_out_for_the_terminal() {
    let mut app = App::new();
    app.step = Step::Lang;
    let shown = ui(&app, &None, Area { x: 0, y: 0, width: 80, height: 24 }, false, false);
    assert_eq!(shown.areas.title, Area { x: 0, y: 0, width: 80, height: 1 });
    assert_eq!(shown.areas.body, BODY);
    match shown.body {
        Body::List(list) => {
            assert_eq!(list.items.len(), 9);
            assert_eq!(list.areas.list, Area { x: 0, y: 3, width: 80, height: 19 });
        }
        Body::Text(_) => panic!("the language step is a list"),
    }
    let mut session = Session::start(Strategy::Pty);
    session.log.drain(vec![LogEvent::Append("a".to_string()), LogEvent::Replace("b".to_string())]);
    app.step = Step::Running;
    let shown = ui(&app, &Some(session), Area { x: 0, y: 0, width: 80, height: 24 }, false, true);
    match shown.body {
        Body::List(list) => assert_eq!(show_all(&list.items), vec!["[|b]"]),
        Body::Text(_) => panic!("the running step is a list"),
    }
}

#[test]
fn the_exit_status_turns_the_running_heading() {
    let mut runner = subtitle_tui::session::Runner::new();
    runner.app.step = Step::Summary;
    runner.on_launch(Ok(Strategy::Piped));
    runner.on_tick(vec![], ChildStatus::Exited(0));
    let screen = render_running(&runner.session, BODY);
    assert_eq!(show(&screen.heading[0]), "[green*|? ][*|The command has finished]");
    assert_eq!(show_all(&screen.items), vec!["[|[exit code 0]]"]);
}
