use markdown_test_report::duration::Duration;
use markdown_test_report::processor::{
    merge, FragmentAddon, Outcome, ProcessOptions, Processor, Summary,
};

fn options(summary_only: bool, front_matter: bool, precise: bool) -> ProcessOptions<FragmentAddon> {
    ProcessOptions {
        disable_front_matter: !front_matter,
        addons: vec![],
        summary: summary_only,
        precise,
        run_id: None,
        repository: None,
        date_title: String::from("2024-01-02 03:04 UTC"),
        date_rfc3339: String::from("2024-01-02T03:04:05+00:00"),
    }
}

const SCENARIO: [&str; 4] = [
    r#"{"type":"suite","event":"started","test_count":2}"#,
    r#"{"type":"test","event":"ok","name":"a","exec_time":1.5}"#,
    r#"{"type":"test","event":"failed","name":"b","exec_time":0.2,"stdout":"boom"}"#,
    r#"{"type":"suite","event":"failed","passed":1,"failed":1,"allowed_fail":0,"ignored":0,"filtered_out":0,"exec_time":1.7}"#,
];

const SCENARIO_TABLE: &str = "\n| | Total | Passed | Failed | Ignored | Filtered | Duration |\n| --- | ----- | -------| ------ | ------- | -------- | -------- |\n| ❌ | 2 | 1 | 1 | 0 | 0 | 1s |\n\n\n";

const SCENARIO_INDEX: &str = "<!--more-->\n\n# Index\n\n| Name | Result | Duration |\n| ---- | ------ | -------- |\n| [a](#a) | ✅ | 1s | \n| [b](#b) | ❌ | 0s | \n";

const SCENARIO_DETAILS: &str = "\n\n# Details\n\n## ✅ a<a id=\"a\"></a>\n\n**Duration**: 1s\n\n## ❌ b<a id=\"b\"></a>\n\n**Duration**: 0s\n\n<details>\n\n<summary>Test output</summary>\n\n<pre>\nboom\n</pre>\n\n</details>\n";

#[test]
fn scenario_full_report() {
    let mut p = Processor::new(options(false, false, false));
    for line in SCENARIO {
        p.line(line);
    }
    let doc = p.finish().unwrap();
    let expected = format!("{}{}{}", SCENARIO_TABLE, SCENARIO_INDEX, SCENARIO_DETAILS);
    assert_eq!(doc, expected);
}

#[test]
fn scenario_skips_undecodable_lines() {
    let mut with_noise = Processor::new(options(false, false, false));
    with_noise.line(SCENARIO[0]);
    with_noise.line("this is not json {");
    with_noise.line(SCENARIO[1]);
    with_noise.line(r#"{"type":"suite","event":"unknown"}"#);
    with_noise.line(SCENARIO[2]);
    with_noise.line(SCENARIO[3]);
    let noisy = with_noise.finish().unwrap();

    let mut clean = Processor::new(options(false, false, false));
    for line in SCENARIO {
        clean.line(line);
    }
    assert_eq!(noisy, clean.finish().unwrap());
    assert!(!noisy.contains("unknown"));
}

#[test]
fn scenario_summary_only() {
    let mut p = Processor::new(options(true, true, false));
    for line in SCENARIO {
        p.line(line);
    }
    let doc = p.finish().unwrap();
    let front_matter = "---\ntitle: \"❌ Test Result 2024-01-02 03:04 UTC\"\ndate: 2024-01-02T03:04:05+00:00\ncategories: test-report\nexcerpt_separator: <!--more-->\n---\n\n";
    assert_eq!(doc, format!("{}{}", front_matter, SCENARIO_TABLE));
    assert!(!doc.contains("# Index"));
    assert!(!doc.contains("# Details"));
}

#[test]
fn scenario_two_suite_starts_add_up() {
    let mut p = Processor::new(options(true, false, false));
    p.line(r#"{"type":"suite","event":"started","test_count":3}"#);
    p.line(r#"{"type":"suite","event":"started","test_count":4}"#);
    p.line(
        r#"{"type":"suite","event":"ok","passed":7,"failed":0,"allowed_fail":0,"ignored":0,"filtered_out":0,"exec_time":0}"#,
    );
    let doc = p.finish().unwrap();
    assert!(doc.contains("| ✅ | 7 | 7 | 0 | 0 | 0 | 0s |"), "got: {doc}");
}

#[test]
fn no_summary_event_means_no_header() {
    let mut p = Processor::new(options(false, true, false));
    p.line(SCENARIO[1]);
    let doc = p.finish().unwrap();
    assert!(!doc.contains("---\n"));
    assert!(!doc.contains("| | Total"));
    assert!(doc.starts_with("<!--more-->\n"));
}

#[test]
fn unknown_total_shows_a_placeholder() {
    let mut p = Processor::new(options(true, false, false));
    p.line(SCENARIO[3]);
    let doc = p.finish().unwrap();
    assert!(doc.contains("| ❌ | *unknown* | 1 | 1 | 0 | 0 | 1s |"), "got: {doc}");
}

#[test]
fn precise_durations_in_the_report() {
    let mut p = Processor::new(options(false, false, true));
    for line in SCENARIO {
        p.line(line);
    }
    let doc = p.finish().unwrap();
    assert!(doc.contains("| [a](#a) | ✅ | 1.5s | "), "got: {doc}");
    assert!(doc.contains("| [b](#b) | ❌ | 200ms | "), "got: {doc}");
    assert!(doc.contains("| 1.7s |"), "got: {doc}");
}

#[test]
fn equal_seconds_render_the_same_duration_text() {
    let mut p = Processor::new(options(false, false, true));
    p.line(r#"{"type":"test","event":"ok","name":"a","exec_time":1.5}"#);
    p.line(r#"{"type":"test","event":"ok","name":"b","exec_time":1.50}"#);
    let doc = p.finish().unwrap();
    assert!(doc.contains("| [a](#a) | ✅ | 1.5s | "));
    assert!(doc.contains("| [b](#b) | ✅ | 1.5s | "));
}

#[test]
fn captured_output_is_html_escaped() {
    let mut p = Processor::new(options(false, false, false));
    p.line(r#"{"type":"test","event":"failed","name":"b","exec_time":0.2,"stdout":"<b>&\"'"}"#);
    let doc = p.finish().unwrap();
    assert!(doc.contains("<pre>\n&#60;b&#62;&#38;&#34;&#39;\n</pre>"), "got: {doc}");
}

#[test]
fn failed_test_without_output_has_no_collapsible_block() {
    let mut p = Processor::new(options(false, false, false));
    p.line(r#"{"type":"test","event":"failed","name":"b","exec_time":0.2}"#);
    let doc = p.finish().unwrap();
    assert!(!doc.contains("<details>"));
}

#[test]
fn duplicate_names_share_one_anchor() {
    let mut p = Processor::new(options(false, false, false));
    p.line(r#"{"type":"test","event":"ok","name":"same","exec_time":0}"#);
    p.line(r#"{"type":"test","event":"failed","name":"same","exec_time":0}"#);
    let doc = p.finish().unwrap();
    assert!(doc.contains("| [same](#same) | ✅ | 0s | "));
    assert!(doc.contains("| [same](#same) | ❌ | 0s | "));
}

#[test]
fn started_tests_are_recorded_but_not_rendered() {
    let mut p = Processor::new(options(false, false, false));
    p.line(r#"{"type":"test","event":"started","name":"a"}"#);
    p.line(r#"{"type":"test","event":"ok","name":"a","exec_time":0}"#);
    let doc = p.finish().unwrap();
    assert_eq!(doc.matches("| [a](#a) |").count(), 1);
    assert_eq!(doc.matches("## ").count(), 1);
}

#[test]
fn addon_fragments_follow_the_summary_table() {
    let mut opts = options(true, false, false);
    opts.addons = vec![FragmentAddon { fragment: String::from("**Git:** `somewhere`\n") }];
    let mut p = Processor::new(opts);
    for line in SCENARIO {
        p.line(line);
    }
    let doc = p.finish().unwrap();
    let expected = format!("{}**Git:** `somewhere`\n\n", SCENARIO_TABLE);
    assert_eq!(doc, expected);
}

#[test]
fn job_link_needs_both_identifiers() {
    let mut opts = options(true, false, false);
    opts.run_id = Some(String::from("77"));
    opts.repository = Some(String::from("me/repo"));
    let mut p = Processor::new(opts);
    p.line(SCENARIO[3]);
    let doc = p.finish().unwrap();
    assert!(doc.contains(
        "**Job:** [https://github.com/me/repo/actions/runs/77](https://github.com/me/repo/actions/runs/77)\n"
    ));

    let mut opts = options(true, false, false);
    opts.run_id = Some(String::from("77"));
    let mut p = Processor::new(opts);
    p.line(SCENARIO[3]);
    assert!(!p.finish().unwrap().contains("**Job:**"));
}

#[test]
fn merge_is_commutative_and_failure_sticky() {
    let a = Summary {
        outcome: Outcome::Passed,
        passed: 1,
        failed: 0,
        ignored: 2,
        filtered_out: 0,
        exec_time: Duration { secs: 1, nanos: 600_000_000 },
    };
    let b = Summary {
        outcome: Outcome::Failed,
        passed: 2,
        failed: 1,
        ignored: 0,
        filtered_out: 3,
        exec_time: Duration { secs: 0, nanos: 500_000_000 },
    };
    let ab = merge(&Some(a), b);
    let ba = merge(&Some(b), a);
    assert_eq!(ab, ba);
    assert_eq!(ab.outcome, Outcome::Failed);
    assert_eq!(ab.passed, 3);
    assert_eq!(ab.failed, 1);
    assert_eq!(ab.ignored, 2);
    assert_eq!(ab.filtered_out, 3);
    assert_eq!(ab.exec_time, Duration { secs: 2, nanos: 100_000_000 });

    // A later passed suite must not revert the failure.
    let after = merge(
        &Some(ab),
        Summary {
            outcome: Outcome::Passed,
            passed: 1,
            failed: 0,
            ignored: 0,
            filtered_out: 0,
            exec_time: Duration { secs: 0, nanos: 0 },
        },
    );
    assert_eq!(after.outcome, Outcome::Failed);
}

#[test]
fn suite_order_does_not_change_the_report() {
    let ok_line = r#"{"type":"suite","event":"ok","passed":2,"failed":0,"allowed_fail":0,"ignored":0,"filtered_out":0,"exec_time":1.0}"#;
    let failed_line = r#"{"type":"suite","event":"failed","passed":0,"failed":1,"allowed_fail":0,"ignored":0,"filtered_out":0,"exec_time":0.5}"#;

    let mut p1 = Processor::new(options(true, false, false));
    p1.line(ok_line);
    p1.line(failed_line);

    let mut p2 = Processor::new(options(true, false, false));
    p2.line(failed_line);
    p2.line(ok_line);

    assert_eq!(p1.finish().unwrap(), p2.finish().unwrap());
}
