use conda_launcher::commands::Platform;
use conda_launcher::pipeline::{Action, Event, LogLine, Pipeline, StepOutcome};

const GOOD: &str = "directory = \"/srv/app\"\n\
environment = \"app\"\n\
script = \"main.py\"\n\
env_file = \"environment.yaml\"\n\
conda_path = \"/opt/conda\"\n";

fn texts(lines: &[LogLine]) -> Vec<&str> {
    lines.iter().map(|l| l.text.as_str()).collect()
}

fn ok_outcome() -> Event {
    Event::StepFinished(StepOutcome::Completed { success: true, status: "exit status: 0".to_string() })
}

#[test]
fn happy_path_logs_every_step_in_order() {
    let mut pipeline = Pipeline::new(Platform::Unix);
    let mut log: Vec<LogLine> = Vec::new();

    let (lines, action) = pipeline.step(Event::Begin);
    assert!(matches!(action, Action::ReadConfig));
    log.extend(lines);

    let (lines, action) = pipeline.step(Event::ConfigContent(GOOD.to_string()));
    match action {
        Action::ChangeDir(dir) => assert_eq!(dir, "/srv/app"),
        _ => panic!("expected a directory change"),
    }
    log.extend(lines);

    let (lines, action) = pipeline.step(Event::DirChanged);
    match action {
        Action::RunShell(cmd) => {
            assert_eq!(cmd, "/opt/conda/bin/conda env create -f environment.yaml")
        }
        _ => panic!("expected the create command"),
    }
    log.extend(lines);

    let (lines, action) = pipeline.step(ok_outcome());
    match action {
        Action::RunShell(cmd) => {
            assert_eq!(cmd, "/opt/conda/bin/conda env update -f environment.yaml --prune")
        }
        _ => panic!("expected the update command"),
    }
    log.extend(lines);

    let (lines, action) = pipeline.step(ok_outcome());
    match action {
        Action::RunShell(cmd) => assert_eq!(
            cmd,
            "source /opt/conda/etc/profile.d/conda.sh && conda activate app && streamlit run main.py"
        ),
        _ => panic!("expected the run command"),
    }
    log.extend(lines);

    let (lines, action) = pipeline.step(ok_outcome());
    assert!(matches!(action, Action::Stop));
    log.extend(lines);

    assert_eq!(
        texts(&log),
        vec![
            "Script started.",
            "Configuration file read successfully.",
            "Configuration file parsed successfully.",
            "Changed directory to: /srv/app",
            "Running command to create conda environment: /opt/conda/bin/conda env create -f environment.yaml",
            "Conda environment created successfully.",
            "Running command to update conda environment: /opt/conda/bin/conda env update -f environment.yaml --prune",
            "Conda environment updated successfully.",
            "Running command to start Streamlit app: source /opt/conda/etc/profile.d/conda.sh && conda activate app && streamlit run main.py",
            "Streamlit app started successfully.",
            "Script completed.",
        ]
    );
    assert!(log.iter().all(|l| !l.error));
}

#[test]
fn missing_config_prompts_once_and_dispatches_nothing() {
    let mut pipeline = Pipeline::new(Platform::Unix);
    let (_, action) = pipeline.step(Event::Begin);
    assert!(matches!(action, Action::ReadConfig));

    let (lines, action) = pipeline.step(Event::ConfigMissing);
    assert!(matches!(action, Action::PromptAndExit));
    assert_eq!(lines.len(), 1);
    assert!(lines[0].error);
    assert_eq!(
        lines[0].text,
        "Config file not found in the same directory as the executable. Please ensure 'config.toml' is present."
    );

    let (lines, action) = pipeline.step(ok_outcome());
    assert!(matches!(action, Action::Stop));
    assert!(lines.is_empty());
}

#[test]
fn unreadable_config_aborts() {
    let mut pipeline = Pipeline::new(Platform::Unix);
    pipeline.step(Event::Begin);
    let (lines, action) = pipeline.step(Event::ConfigReadFailed("permission denied".to_string()));
    assert!(matches!(action, Action::Abort));
    assert_eq!(texts(&lines), vec!["Failed to read configuration file: permission denied"]);
    assert!(lines[0].error);
}

#[test]
fn unparsable_config_aborts_after_read_line() {
    let mut pipeline = Pipeline::new(Platform::Unix);
    pipeline.step(Event::Begin);
    let (lines, action) = pipeline.step(Event::ConfigContent("directory = = 1".to_string()));
    assert!(matches!(action, Action::Abort));
    assert_eq!(lines.len(), 2);
    assert_eq!(lines[0].text, "Configuration file read successfully.");
    assert!(!lines[0].error);
    assert!(lines[1].text.starts_with("Failed to parse configuration file: "));
    assert!(lines[1].error);
}

#[test]
fn failed_directory_change_stops_early() {
    let mut pipeline = Pipeline::new(Platform::Unix);
    pipeline.step(Event::Begin);
    pipeline.step(Event::ConfigContent(GOOD.to_string()));
    let (lines, action) = pipeline.step(Event::DirChangeFailed("no such directory".to_string()));
    assert!(matches!(action, Action::Stop));
    assert_eq!(texts(&lines), vec!["Failed to change directory: no such directory"]);
    assert!(lines[0].error);
}

#[test]
fn create_exit_nonzero_still_runs_update_and_run() {
    let mut pipeline = Pipeline::new(Platform::Unix);
    pipeline.step(Event::Begin);
    pipeline.step(Event::ConfigContent(GOOD.to_string()));
    pipeline.step(Event::DirChanged);

    let failed = Event::StepFinished(StepOutcome::Completed {
        success: false,
        status: "exit status: 1".to_string(),
    });
    let (lines, action) = pipeline.step(failed);
    match action {
        Action::RunShell(cmd) => {
            assert_eq!(cmd, "/opt/conda/bin/conda env update -f environment.yaml --prune")
        }
        _ => panic!("a non-zero create exit must not stop the pipeline"),
    }
    assert_eq!(lines[0].text, "Conda environment creation failed with exit code: exit status: 1");
    assert!(lines[0].error);

    let (_, action) = pipeline.step(ok_outcome());
    assert!(matches!(action, Action::RunShell(_)));
}

#[test]
fn create_dispatch_failure_stops_everything() {
    let mut pipeline = Pipeline::new(Platform::Unix);
    pipeline.step(Event::Begin);
    pipeline.step(Event::ConfigContent(GOOD.to_string()));
    pipeline.step(Event::DirChanged);

    let failed = Event::StepFinished(StepOutcome::DispatchFailed("no interpreter".to_string()));
    let (lines, action) = pipeline.step(failed);
    assert!(matches!(action, Action::Stop));
    assert_eq!(texts(&lines), vec!["Failed to create conda environment: no interpreter"]);
    assert!(lines[0].error);

    let (lines, action) = pipeline.step(ok_outcome());
    assert!(matches!(action, Action::Stop));
    assert!(lines.is_empty());
}

#[test]
fn update_exit_nonzero_still_runs_app() {
    let mut pipeline = Pipeline::new(Platform::Unix);
    pipeline.step(Event::Begin);
    pipeline.step(Event::ConfigContent(GOOD.to_string()));
    pipeline.step(Event::DirChanged);
    pipeline.step(ok_outcome());

    let failed = Event::StepFinished(StepOutcome::Completed {
        success: false,
        status: "exit status: 2".to_string(),
    });
    let (lines, action) = pipeline.step(failed);
    match action {
        Action::RunShell(cmd) => assert!(cmd.starts_with("source /opt/conda/etc/profile.d/conda.sh")),
        _ => panic!("a non-zero update exit must not stop the pipeline"),
    }
    assert_eq!(lines[0].text, "Conda environment update failed with exit code: exit status: 2");
}

#[test]
fn run_step_exit_nonzero_is_reported_as_an_error() {
    let mut pipeline = Pipeline::new(Platform::Unix);
    pipeline.step(Event::Begin);
    pipeline.step(Event::ConfigContent(GOOD.to_string()));
    pipeline.step(Event::DirChanged);
    pipeline.step(ok_outcome());
    pipeline.step(ok_outcome());

    let interrupted = Event::StepFinished(StepOutcome::Completed {
        success: false,
        status: "exit status: 130".to_string(),
    });
    let (lines, action) = pipeline.step(interrupted);
    assert!(matches!(action, Action::Stop));
    assert_eq!(
        texts(&lines),
        vec!["Streamlit app failed with exit code: exit status: 130", "Script completed."]
    );
    assert!(lines[0].error);
    assert!(!lines[1].error);
}

#[test]
fn run_dispatch_failure_is_reported_without_completion_line() {
    let mut pipeline = Pipeline::new(Platform::Unix);
    pipeline.step(Event::Begin);
    pipeline.step(Event::ConfigContent(GOOD.to_string()));
    pipeline.step(Event::DirChanged);
    pipeline.step(ok_outcome());
    pipeline.step(ok_outcome());

    let failed = Event::StepFinished(StepOutcome::DispatchFailed("no interpreter".to_string()));
    let (lines, action) = pipeline.step(failed);
    assert!(matches!(action, Action::Stop));
    assert_eq!(texts(&lines), vec!["Failed to execute process: no interpreter"]);
    assert!(lines[0].error);
}

#[test]
fn repeated_failures_keep_every_line_in_order() {
    let mut pipeline = Pipeline::new(Platform::Unix);
    let mut log: Vec<LogLine> = Vec::new();
    let mut actions: Vec<Action> = Vec::new();

    let mut drive = |p: &mut Pipeline, ev: Event, log: &mut Vec<LogLine>, actions: &mut Vec<Action>| {
        let (lines, action) = p.step(ev);
        log.extend(lines);
        actions.push(action);
    };

    drive(&mut pipeline, Event::Begin, &mut log, &mut actions);
    drive(&mut pipeline, Event::ConfigContent(GOOD.to_string()), &mut log, &mut actions);
    drive(&mut pipeline, Event::DirChanged, &mut log, &mut actions);
    let fail = |code: &str| {
        Event::StepFinished(StepOutcome::Completed { success: false, status: code.to_string() })
    };
    drive(&mut pipeline, fail("exit status: 1"), &mut log, &mut actions);
    drive(&mut pipeline, fail("exit status: 1"), &mut log, &mut actions);
    drive(&mut pipeline, fail("exit status: 9"), &mut log, &mut actions);

    assert_eq!(
        texts(&log),
        vec![
            "Script started.",
            "Configuration file read successfully.",
            "Configuration file parsed successfully.",
            "Changed directory to: /srv/app",
            "Running command to create conda environment: /opt/conda/bin/conda env create -f environment.yaml",
            "Conda environment creation failed with exit code: exit status: 1",
            "Running command to update conda environment: /opt/conda/bin/conda env update -f environment.yaml --prune",
            "Conda environment update failed with exit code: exit status: 1",
            "Running command to start Streamlit app: source /opt/conda/etc/profile.d/conda.sh && conda activate app && streamlit run main.py",
            "Streamlit app failed with exit code: exit status: 9",
            "Script completed.",
        ]
    );
    assert!(matches!(actions[3], Action::RunShell(_)));
    assert!(matches!(actions[4], Action::RunShell(_)));
    assert!(matches!(actions[5], Action::Stop));
}

#[test]
fn windows_pipeline_builds_windows_commands() {
    let good = "directory = \"C:\\\\srv\\\\app\"\n\
environment = \"app\"\n\
script = \"main.py\"\n\
env_file = \"environment.yaml\"\n\
conda_path = \"C:\\\\opt\\\\conda\"\n";
    let mut pipeline = Pipeline::new(Platform::Windows);
    pipeline.step(Event::Begin);
    pipeline.step(Event::ConfigContent(good.to_string()));
    let (_, action) = pipeline.step(Event::DirChanged);
    match action {
        Action::RunShell(cmd) => assert_eq!(
            cmd,
            "C:\\opt\\conda\\condabin\\conda.bat env create -f environment.yaml"
        ),
        _ => panic!("expected the create command"),
    }
}
