use bbdd::merge::{
    check_output, merge_cleanup, merge_command_args, merge_inputs, merge_result, proceeds,
    MergeError, OutputCheck, OverwriteMode,
};

fn s(x: &str) -> String {
    x.to_string()
}

#[test]
fn successful_merge_deletes_inputs() {
    let inputs = merge_inputs(&s("t.video.80"), &s("t.audio.30280"));
    assert_eq!(inputs, vec![s("t.video.80"), s("t.audio.30280")]);
    assert_eq!(merge_cleanup(&inputs, &s("t.mp4"), true, true), inputs);
    assert_eq!(merge_cleanup(&inputs, &s("t.mp4"), true, false), inputs);
}

#[test]
fn failed_merge_deletes_output_and_follows_policy() {
    let inputs = vec![s("t.video.80"), s("t.audio.30280")];
    assert_eq!(merge_cleanup(&inputs, &s("t.mp4"), false, true), vec![s("t.mp4")]);
    assert_eq!(
        merge_cleanup(&inputs, &s("t.mp4"), false, false),
        vec![s("t.mp4"), s("t.video.80"), s("t.audio.30280")]
    );
}

#[test]
fn merge_arguments() {
    let inputs = vec![s("a.video.80"), s("a.audio.1")];
    assert_eq!(
        merge_command_args(&inputs, &s("a.mp4")),
        vec![
            s("-i"),
            s("a.video.80"),
            s("-i"),
            s("a.audio.1"),
            s("-vcodec"),
            s("copy"),
            s("-acodec"),
            s("copy"),
            s("a.mp4")
        ]
    );
}

#[test]
fn merge_exit_codes() {
    assert_eq!(merge_result(Some(0)), Ok(()));
    assert_eq!(merge_result(Some(1)), Err(MergeError::ExitCode(1)));
    assert_eq!(merge_result(None), Err(MergeError::Killed));
}

#[test]
fn output_checks() {
    assert_eq!(check_output(OverwriteMode::Skip, false), OutputCheck::Proceed);
    assert_eq!(check_output(OverwriteMode::Skip, true), OutputCheck::Skip);
    assert_eq!(check_output(OverwriteMode::Overwrite, true), OutputCheck::Proceed);
    assert_eq!(check_output(OverwriteMode::Ask, true), OutputCheck::Confirm);
    assert_eq!(check_output(OverwriteMode::Ask, false), OutputCheck::Proceed);
    assert!(proceeds(OutputCheck::Confirm, true));
    assert!(!proceeds(OutputCheck::Confirm, false));
    assert!(!proceeds(OutputCheck::Skip, true));
    assert!(proceeds(OutputCheck::Proceed, false));
}
