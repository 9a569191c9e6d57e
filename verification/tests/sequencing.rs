use provision::sequencer::run_stage_table;
use provision::sequencer::StageRun;
use provision::step::ExecutionOutcome;
use provision::step::Stage;
use provision::step::StageResult;
use provision::zfs::zfs_partition_drive;

fn ok(output: &str) -> ExecutionOutcome {
    ExecutionOutcome::Success { output: output.to_string() }
}

fn fail(exit_status: i32, output: &str) -> ExecutionOutcome {
    ExecutionOutcome::Failure { exit_status, output: output.to_string() }
}

#[test]
fn all_success_runs_every_step_in_order() {
    let stage = zfs_partition_drive("sda");
    let mut run = StageRun::new(stage);
    let mut labels: Vec<String> = Vec::new();
    while !run.is_finished() {
        labels.push(run.next_step().label.clone());
        run.record(ok("done"));
    }
    assert_eq!(
        labels,
        vec![
            "erase-device".to_string(),
            "efi-partition-create".to_string(),
            "data-partition-create".to_string(),
            "efi-format".to_string(),
        ]
    );
    assert_eq!(run.recorded.len(), 4);
    match run.result() {
        StageResult::Success { message } => assert_eq!(message, "done"),
        StageResult::Failure { .. } => panic!("stage must succeed"),
    }
}

#[test]
fn failure_stops_following_steps() {
    let stage = zfs_partition_drive("sda");
    let mut run = StageRun::new(stage);
    // First step succeeds, second fails: steps three and four are never
    // handed out.
    assert_eq!(run.next_step().label, "erase-device");
    run.record(ok(""));
    assert_eq!(run.next_step().label, "efi-partition-create");
    run.record(fail(1, "sgdisk: error"));
    assert!(run.is_finished());
    assert_eq!(run.recorded.len(), 2);
    match run.result() {
        StageResult::Failure { command, exit_status, output } => {
            assert_eq!(command, "sgdisk -n 1:0:+512M -t 1:EF00 -c 1:EFI /dev/disk/by-id/sda");
            assert_eq!(exit_status, 1);
            assert_eq!(output, "sgdisk: error");
        }
        StageResult::Success { .. } => panic!("stage must fail"),
    }
}

#[test]
fn empty_stage_succeeds_with_empty_message() {
    let stage = Stage { name: "Nothing".to_string(), steps: Vec::new() };
    let run = StageRun::new(stage);
    assert!(run.is_finished());
    match run.result() {
        StageResult::Success { message } => assert_eq!(message, ""),
        StageResult::Failure { .. } => panic!("empty stage must succeed"),
    }
}

#[test]
fn table_run_counts_invoked_steps() {
    let stage = zfs_partition_drive("sdb");
    let outcomes = vec![ok("a"), fail(2, "busy"), ok("c"), ok("d")];
    let (result, invoked) = run_stage_table(stage, &outcomes);
    assert_eq!(invoked, 2);
    match result {
        StageResult::Failure { command, exit_status, output } => {
            assert_eq!(command, "sgdisk -n 1:0:+512M -t 1:EF00 -c 1:EFI /dev/disk/by-id/sdb");
            assert_eq!(exit_status, 2);
            assert_eq!(output, "busy");
        }
        StageResult::Success { .. } => panic!("stage must fail"),
    }
}

#[test]
fn table_run_all_success_invokes_all() {
    let stage = zfs_partition_drive("sdb");
    let outcomes = vec![ok("a"), ok("b"), ok("c"), ok("last line")];
    let (result, invoked) = run_stage_table(stage, &outcomes);
    assert_eq!(invoked, 4);
    match result {
        StageResult::Success { message } => assert_eq!(message, "last line"),
        StageResult::Failure { .. } => panic!("stage must succeed"),
    }
}

#[test]
fn first_failure_wins_over_later_ones() {
    let stage = zfs_partition_drive("sdc");
    let outcomes = vec![fail(5, "first"), fail(7, "second"), ok(""), ok("")];
    let (result, invoked) = run_stage_table(stage, &outcomes);
    assert_eq!(invoked, 1);
    match result {
        StageResult::Failure { command, exit_status, .. } => {
            assert_eq!(command, "blkdiscard -f /dev/disk/by-id/sdc");
            assert_eq!(exit_status, 5);
        }
        StageResult::Success { .. } => panic!("stage must fail"),
    }
}

// Re-running the partition stage against the same device is not idempotent
// and is not meant to be: the stage invokes every destructive step again —
// never a silent no-op — and a busy device simply fails the stage.
#[test]
fn rerun_partition_overwrites_or_fails_never_skips() {
    let first = zfs_partition_drive("sda");
    let all_ok = vec![ok(""), ok(""), ok(""), ok("")];
    let (first_result, first_invoked) = run_stage_table(first, &all_ok);
    assert_eq!(first_invoked, 4);
    assert!(matches!(first_result, StageResult::Success { .. }));

    // Overwrite branch: the second run re-invokes the erase step and every
    // other step exactly as the first run did.
    let second = zfs_partition_drive("sda");
    let (second_result, second_invoked) = run_stage_table(second, &all_ok);
    assert_eq!(second_invoked, 4);
    assert!(matches!(second_result, StageResult::Success { .. }));

    // Failure branch: a device already claimed fails the erase step, and
    // the stage reports the failure instead of skipping it.
    let third = zfs_partition_drive("sda");
    let busy = vec![fail(1, "blkdiscard: device busy"), ok(""), ok(""), ok("")];
    let (third_result, third_invoked) = run_stage_table(third, &busy);
    assert_eq!(third_invoked, 1);
    assert!(matches!(third_result, StageResult::Failure { .. }));
}
