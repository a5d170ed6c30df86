use admin_portal::aad_tool::{
    aad_tool_candidate_paths, combine, find_aad_tool, find_pkexec, pick_first, pkexec_candidate_paths,
    plan_fed_launch, plan_fed_run, plan_root_launch, plan_run, plan_run_as_root, plan_user_launch,
    prepare_fed_run, prepare_run, probe, settle_exit, settle_fed_run, settle_output, settle_run, ExitReport, FedRunOutcome,
};

fn strings(v: &[&str]) -> Vec<String> {
    v.iter().map(|s| s.to_string()).collect()
}

const AAD_PLACES: [&str; 3] = ["/usr/bin/aad-tool", "/usr/local/bin/aad-tool", "/bin/aad-tool"];
const PKEXEC_PLACES: [&str; 2] = ["/usr/bin/pkexec", "/bin/pkexec"];
const AAD_MISSING: &str =
    "aad-tool not found. Please ensure Himmelblau is installed and aad-tool is in /usr/bin.";
const PKEXEC_MISSING: &str = "pkexec not found. Please install polkit (provides /usr/bin/pkexec).";

fn report(code: Option<i32>, out: &str, err: &str) -> ExitReport {
    ExitReport { code, stdout: out.as_bytes().to_vec(), stderr: err.as_bytes().to_vec() }
}

#[test]
fn combine_joins_both_streams() {
    assert_eq!(combine("out".into(), "err".into()), "out\nerr");
    assert_eq!(combine("out".into(), String::new()), "out");
    assert_eq!(combine(String::new(), "err".into()), "err");
    assert_eq!(combine(String::new(), String::new()), "");
}

#[test]
fn find_aad_tool_reports_a_usual_place_or_the_error() {
    match find_aad_tool() {
        Ok(p) => {
            assert!(AAD_PLACES.contains(&p.as_str()));
            let first = AAD_PLACES.iter().find(|c| std::path::Path::new(c).exists()).unwrap();
            assert_eq!(&p, first);
        }
        Err(e) => {
            assert_eq!(e, AAD_MISSING);
            assert!(AAD_PLACES.iter().all(|c| !std::path::Path::new(c).exists()));
        }
    }
}

#[test]
fn find_pkexec_reports_a_usual_place_or_the_error() {
    match find_pkexec() {
        Ok(p) => assert!(PKEXEC_PLACES.contains(&p.as_str())),
        Err(e) => {
            assert_eq!(e, PKEXEC_MISSING);
            assert!(PKEXEC_PLACES.iter().all(|c| !std::path::Path::new(c).exists()));
        }
    }
}

#[test]
fn plans_put_pkexec_and_the_tool_first() {
    let args = strings(&["cred", "list"]);
    let inv = plan_run("/usr/bin/aad-tool".into(), args.clone());
    assert_eq!(inv.program, "/usr/bin/aad-tool");
    assert_eq!(inv.args, args);
    assert!(!inv.privileged);
    let inv = plan_run_as_root("/usr/bin/pkexec".into(), "/usr/bin/aad-tool".into(), args.clone());
    assert_eq!(inv.program, "/usr/bin/pkexec");
    assert_eq!(inv.args, strings(&["/usr/bin/aad-tool", "cred", "list"]));
    assert!(inv.privileged);
    let inv = plan_fed_run("/bin/aad-tool".into(), strings(&["auth-test"]));
    assert_eq!(inv.program, "setsid");
    assert_eq!(inv.args, strings(&["/bin/aad-tool", "auth-test"]));
    assert!(!inv.privileged);
}

#[test]
fn prepare_run_finds_the_programs() {
    let args = strings(&["status"]);
    match prepare_run(args.clone(), false) {
        Ok(inv) => {
            assert!(AAD_PLACES.contains(&inv.program.as_str()));
            assert_eq!(inv.args, args);
        }
        Err(e) => assert_eq!(e, AAD_MISSING),
    }
    match prepare_run(args.clone(), true) {
        Ok(inv) => {
            assert!(PKEXEC_PLACES.contains(&inv.program.as_str()));
            assert!(AAD_PLACES.contains(&inv.args[0].as_str()));
            assert_eq!(inv.args[1..].to_vec(), args);
            assert!(inv.privileged);
        }
        Err(e) => assert!(e == AAD_MISSING || e == PKEXEC_MISSING),
    }
    match prepare_fed_run(args.clone()) {
        Ok(inv) => {
            assert_eq!(inv.program, "setsid");
            assert!(AAD_PLACES.contains(&inv.args[0].as_str()));
        }
        Err(e) => assert_eq!(e, AAD_MISSING),
    }
}

#[test]
fn successful_commands_report_their_output() {
    assert_eq!(settle_exit(false, Some(0), "  done \n", ""), Ok("done".to_string()));
    assert_eq!(settle_exit(false, Some(0), "a\n", "  b"), Ok("a\nb".to_string()));
    assert_eq!(settle_exit(true, Some(0), " \n", "\t"), Ok("(completed successfully)".to_string()));
}

#[test]
fn failed_commands_report_their_output_or_exit_code() {
    assert_eq!(settle_exit(false, Some(2), "", "boom\n"), Err("boom".to_string()));
    assert_eq!(settle_exit(false, Some(3), "", ""), Err("Command failed with exit code 3".to_string()));
    assert_eq!(settle_exit(false, None, "", ""), Err("Command failed with exit code -1".to_string()));
    assert_eq!(
        settle_exit(false, Some(126), "", ""),
        Err("Command failed with exit code 126".to_string())
    );
}

#[test]
fn pkexec_exit_codes_are_explained() {
    assert_eq!(
        settle_exit(true, Some(126), "ignored", ""),
        Err("Authentication cancelled or access denied. No changes were made.".to_string())
    );
    assert_eq!(
        settle_exit(true, Some(127), "", "ignored"),
        Err("aad-tool not found by pkexec. Ensure Himmelblau is installed in /usr/bin.".to_string())
    );
}

#[test]
fn raw_output_is_decoded_lossily() {
    let r = ExitReport { code: Some(0), stdout: vec![b'o', b'k', 0xff], stderr: vec![] };
    assert_eq!(settle_output(false, &r), Ok("ok\u{fffd}".to_string()));
    assert_eq!(settle_output(false, &report(Some(0), "héllo", "")), Ok("héllo".to_string()));
}

#[test]
fn launch_failures_name_the_program() {
    assert_eq!(
        settle_run(false, "/usr/bin/aad-tool", Err("No such file".into())),
        Err("Failed to spawn /usr/bin/aad-tool: No such file".to_string())
    );
    assert_eq!(
        settle_run(true, "/usr/bin/pkexec", Err("denied".into())),
        Err("Failed to launch pkexec — is polkit installed and running? (denied)".to_string())
    );
    assert_eq!(settle_run(true, "/usr/bin/pkexec", Ok(report(Some(0), "x", ""))), Ok("x".to_string()));
}

#[test]
fn fed_runs_report_each_failure() {
    assert_eq!(
        settle_fed_run(FedRunOutcome::SpawnFailed("e1".into())),
        Err("Failed to spawn aad-tool via setsid: e1".to_string())
    );
    assert_eq!(
        settle_fed_run(FedRunOutcome::WaitFailed("e2".into())),
        Err("Failed to wait for aad-tool: e2".to_string())
    );
    assert_eq!(
        settle_fed_run(FedRunOutcome::Finished(report(Some(126), "", ""))),
        Err("Command failed with exit code 126".to_string())
    );
    assert_eq!(
        settle_fed_run(FedRunOutcome::Finished(report(Some(0), "", ""))),
        Ok("(completed successfully)".to_string())
    );
}

#[test]
fn candidate_places_are_in_order() {
    assert_eq!(aad_tool_candidate_paths(), AAD_PLACES.to_vec());
    assert_eq!(pkexec_candidate_paths(), PKEXEC_PLACES.to_vec());
}

#[test]
fn probe_looks_at_each_place() {
    let places = vec!["/", "/no/such/place/at/all", "/proc"];
    assert_eq!(probe(&places), vec![true, false, true]);
    assert_eq!(probe(&vec![]), Vec::<bool>::new());
}

#[test]
fn pick_first_takes_the_first_present_place() {
    let places = AAD_PLACES.to_vec();
    assert_eq!(pick_first(&places, &vec![false, true, true], AAD_MISSING), Ok(AAD_PLACES[1].to_string()));
    assert_eq!(pick_first(&places, &vec![true, true, true], AAD_MISSING), Ok(AAD_PLACES[0].to_string()));
    assert_eq!(pick_first(&places, &vec![false, false, true], AAD_MISSING), Ok(AAD_PLACES[2].to_string()));
    assert_eq!(pick_first(&places, &vec![false, false, false], AAD_MISSING), Err(AAD_MISSING.to_string()));
    let pk = PKEXEC_PLACES.to_vec();
    assert_eq!(pick_first(&pk, &vec![true, true], PKEXEC_MISSING), Ok("/usr/bin/pkexec".to_string()));
    assert_eq!(pick_first(&pk, &vec![false, true], PKEXEC_MISSING), Ok("/bin/pkexec".to_string()));
}

#[test]
fn launches_follow_the_lookups() {
    let args = strings(&["cache-clear", "--full"]);
    let tool = Ok("/usr/bin/aad-tool".to_string());
    let pk = Ok("/bin/pkexec".to_string());
    let missing_tool: Result<String, String> = Err(AAD_MISSING.to_string());
    let missing_pk: Result<String, String> = Err(PKEXEC_MISSING.to_string());

    let inv = plan_user_launch(tool.clone(), args.clone()).unwrap();
    assert_eq!(inv.program, "/usr/bin/aad-tool");
    assert_eq!(inv.args, args);
    assert!(!inv.privileged);
    assert_eq!(plan_user_launch(missing_tool.clone(), args.clone()).err(), Some(AAD_MISSING.to_string()));

    let inv = plan_root_launch(tool.clone(), pk.clone(), args.clone()).unwrap();
    assert_eq!(inv.program, "/bin/pkexec");
    assert_eq!(inv.args, strings(&["/usr/bin/aad-tool", "cache-clear", "--full"]));
    assert!(inv.privileged);
    assert_eq!(
        plan_root_launch(missing_tool.clone(), missing_pk.clone(), args.clone()).err(),
        Some(AAD_MISSING.to_string())
    );
    assert_eq!(plan_root_launch(tool.clone(), missing_pk, args.clone()).err(), Some(PKEXEC_MISSING.to_string()));

    let inv = plan_fed_launch(tool, args.clone()).unwrap();
    assert_eq!(inv.program, "setsid");
    assert_eq!(inv.args, strings(&["/usr/bin/aad-tool", "cache-clear", "--full"]));
    assert!(!inv.privileged);
    assert_eq!(plan_fed_launch(missing_tool, args).err(), Some(AAD_MISSING.to_string()));
}
