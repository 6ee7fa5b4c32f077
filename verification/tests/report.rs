use crabscore::decimal::Decimal;
use crabscore::error::CrabScoreError;
use crabscore::metrics::{CostMetrics, EnergyMetrics, PerformanceMetrics, SafetyMetrics};
use crabscore::profiles::IndustryProfile;
use crabscore::report::{compliance, generate_html, generate_json, score_bar, Band, ScoreBar};
use crabscore::score::{Certification, Timestamp};
use crabscore::scoring::ScoringEngine;
use crabscore::text::{digit, number_text, padded_text, parse_numeral, same_text};

fn nanos(n: u128) -> Decimal {
    Decimal::from_nanos(n)
}

fn chars(s: &str) -> Vec<char> {
    s.chars().collect()
}

#[test]
fn numbers_are_written_in_decimal() {
    for n in [0u128, 1, 9, 10, 11, 99, 100, 12345, 1_000_000_000, u64::MAX as u128, u128::MAX] {
        assert_eq!(number_text(n), n.to_string());
    }
    for d in 0u8..10 {
        assert_eq!(digit(d), d.to_string());
    }
}

#[test]
fn padded_numbers_keep_their_width() {
    assert_eq!(padded_text(0, 9), "000000000");
    assert_eq!(padded_text(250_000_000, 9), "250000000");
    assert_eq!(padded_text(7, 3), "007");
    assert_eq!(padded_text(12345, 3), "345");
    assert_eq!(padded_text(5, 0), "");
}

#[test]
fn numerals_are_read_within_a_range() {
    let s = chars("ab0123x");
    assert_eq!(parse_numeral(&s, 2, 6), Some(123));
    assert_eq!(parse_numeral(&s, 2, 7), None);
    assert_eq!(parse_numeral(&s, 1, 6), None);
    assert_eq!(parse_numeral(&s, 3, 3), Some(0));
    let max = chars("340282366920938463463374607431768211455");
    assert_eq!(parse_numeral(&max, 0, max.len()), Some(u128::MAX));
    let over = chars("340282366920938463463374607431768211456");
    assert_eq!(parse_numeral(&over, 0, over.len()), None);
    let long = chars("9999999999999999999999999999999999999999999");
    assert_eq!(parse_numeral(&long, 0, long.len()), None);
    let arabic = chars("\u{0663}");
    assert_eq!(parse_numeral(&arabic, 0, 1), None);
}

#[test]
fn texts_compare_by_their_characters() {
    assert!(same_text("exe", "exe"));
    assert!(same_text("", ""));
    assert!(!same_text("exe", "EXE"));
    assert!(!same_text("exe", "exe "));
}

#[test]
fn decimal_text_has_nine_fraction_digits() {
    assert_eq!(nanos(0).to_text(), "0.000000000");
    assert_eq!(nanos(10_250_000_000).to_text(), "10.250000000");
    assert_eq!(nanos(84_999_999_000).to_text(), "84.999999000");
    assert_eq!(nanos(1).to_text(), "0.000000001");
    assert_eq!(nanos(u128::MAX).to_text(), "340282366920938463463374607431.768211455");
}

#[test]
fn decimal_text_is_read_back_exactly() {
    for n in [
        0u128,
        1,
        999_999_999,
        1_000_000_000,
        73_333_333_333,
        84_999_999_999,
        110_010_000_000,
        u64::MAX as u128,
        u128::MAX,
    ] {
        let d = nanos(n);
        assert_eq!(Decimal::from_text(&d.to_text()), Some(d));
    }
}

#[test]
fn decimal_text_of_another_shape_is_refused() {
    for text in [
        "",
        "1",
        "1.5",
        ".500000000",
        "1.50000000",
        "1.5000000000x",
        "-1.000000000",
        "1,000000000",
        "1.0000000a0",
        "a.000000000",
        "+1.000000000",
        "1 .000000000",
        "340282366920938463463374607431.768211456",
        "340282366920938463463374607432.000000000",
        "99999999999999999999999999999999999999999.000000000",
    ] {
        assert_eq!(Decimal::from_text(text), None, "{:?}", text);
    }
    assert_eq!(Decimal::from_text("007.000000001"), Some(nanos(7_000_000_001)));
    assert_eq!(Decimal::from_text("1.0000000000"), None);
}

#[test]
fn tiers_are_read_back_from_their_tags() {
    let tiers = [
        (Certification::Uncertified, "None"),
        (Certification::Verified, "Verified"),
        (Certification::Certified, "Certified"),
        (Certification::Elite, "Elite"),
        (Certification::Pioneer, "Pioneer"),
        (Certification::Sustainable, "Sustainable"),
    ];
    for (tier, tag) in tiers {
        assert_eq!(tier.name(), tag);
        assert_eq!(Certification::from_name(tag), Some(tier));
        assert_eq!(Certification::from_name(tier.name()), Some(tier));
    }
    assert_eq!(Certification::from_name("none"), None);
    assert_eq!(Certification::from_name(""), None);
    assert_eq!(Certification::from_name("Uncertified"), None);
}

#[test]
fn every_field_of_a_score_survives_its_text_form() {
    let mut perf = PerformanceMetrics::default();
    perf.latency.p95_ms = nanos(15_375_000_000);
    perf.throughput.requests_per_second = nanos(97_560_975_609);
    perf.resource_usage.cpu_efficiency = nanos(797_500_000);
    let s = ScoringEngine::new(IndustryProfile::WebServices).calculate_score(
        &perf,
        &EnergyMetrics::default(),
        &CostMetrics::default(),
        &SafetyMetrics::default(),
        Timestamp { seconds: 0, nanos: 0 },
    );
    for field in [s.overall, s.performance, s.energy, s.cost, s.bonuses] {
        assert_eq!(Decimal::from_text(&field.to_text()), Some(field));
    }
    assert_eq!(Certification::from_name(s.certification.name()), Some(s.certification));
}

#[test]
fn json_report_wraps_the_score() {
    let s = ScoringEngine::new(IndustryProfile::Gaming).calculate_score(
        &PerformanceMetrics::default(),
        &EnergyMetrics::default(),
        &CostMetrics::default(),
        &SafetyMetrics::default(),
        Timestamp { seconds: 77, nanos: 5 },
    );
    assert_eq!(generate_json(&s).score, s);
    assert_eq!(s.duplicate(), s);
}

#[test]
fn html_page_embeds_the_report_as_it_is() {
    let json = "{\n  \"score\": {\n    \"overall\": 73.5\n  }\n}";
    let page = generate_html(json);
    let head = "<!DOCTYPE html><html><head><meta charset='utf-8'><title>CrabScore Report</title>\
                <style>body{background:#18191c;color:#f7f7f7;font-family:'JetBrains Mono',monospace;\
                padding:2rem}</style></head><body><h1 style='color:#ff5522;text-align:center'>\
                CRABSCORE REPORT</h1><pre style='background:#111;color:#aaa;padding:1rem;border-radius:0.5rem;\
                overflow-x:auto'>";
    assert_eq!(page, format!("{}{}{}", head, json, "</pre></body></html>"));
    assert_eq!(generate_html(""), format!("{}{}", head, "</pre></body></html>"));
}

#[test]
fn compliance_passes_from_seventy() {
    assert_eq!(compliance(nanos(70_000_000_000)), "PASS");
    assert_eq!(compliance(nanos(69_999_999_999)), "FAIL");
    assert_eq!(compliance(nanos(0)), "FAIL");
    assert_eq!(compliance(nanos(u128::MAX)), "PASS");
}

#[test]
fn score_bar_fills_a_cell_for_every_five_points() {
    assert_eq!(score_bar(nanos(0)), ScoreBar { filled: 0, empty: 20, band: Band::Low });
    assert_eq!(score_bar(nanos(4_999_999_999)).filled, 0);
    assert_eq!(score_bar(nanos(5_000_000_000)).filled, 1);
    assert_eq!(score_bar(nanos(59_999_999_999)), ScoreBar { filled: 11, empty: 9, band: Band::Low });
    assert_eq!(score_bar(nanos(60_000_000_000)), ScoreBar { filled: 12, empty: 8, band: Band::Medium });
    assert_eq!(score_bar(nanos(79_999_999_999)).band, Band::Medium);
    assert_eq!(score_bar(nanos(80_000_000_000)), ScoreBar { filled: 16, empty: 4, band: Band::High });
    assert_eq!(score_bar(nanos(100_000_000_000)), ScoreBar { filled: 20, empty: 0, band: Band::High });
    assert_eq!(score_bar(nanos(u128::MAX)), ScoreBar { filled: 20, empty: 0, band: Band::High });
}

#[test]
fn error_messages_name_what_went_wrong() {
    assert_eq!(CrabScoreError::measurement("no samples").message(), "Measurement failed: no samples");
    assert_eq!(CrabScoreError::analysis("bad tree").message(), "Analysis failed: bad tree");
    assert_eq!(CrabScoreError::config("x").message(), "Invalid configuration: x");
    assert_eq!(CrabScoreError::unsupported("windows").message(), "Unsupported: windows");
    assert_eq!(CrabScoreError::validation("").message(), "Invalid input: ");
    assert_eq!(
        CrabScoreError::EnvironmentError("no cpu".to_string()).message(),
        "Failed to detect environment: no cpu"
    );
}

#[test]
fn command_error_message_shows_the_status() {
    let e = |status| CrabScoreError::CommandError {
        command: "cargo build".to_string(),
        status,
        stderr: "boom".to_string(),
    };
    assert_eq!(e(Some(101)).message(), "Command 'cargo build' failed with status Some(101): boom");
    assert_eq!(e(Some(0)).message(), "Command 'cargo build' failed with status Some(0): boom");
    assert_eq!(e(Some(-1)).message(), "Command 'cargo build' failed with status Some(-1): boom");
    assert_eq!(
        e(Some(i32::MIN)).message(),
        "Command 'cargo build' failed with status Some(-2147483648): boom"
    );
    assert_eq!(e(None).message(), "Command 'cargo build' failed with status None: boom");
}

#[test]
fn outside_error_messages_carry_the_outside_text() {
    let json = serde_json::from_str::<serde_json::Value>("{").unwrap_err();
    let text = json.to_string();
    assert_eq!(CrabScoreError::from(json).message(), format!("JSON error: {}", text));
    let io = std::io::Error::new(std::io::ErrorKind::NotFound, "gone");
    assert_eq!(CrabScoreError::from(io).message(), "I/O error: gone");
}

#[test]
fn decimal_text_is_a_json_number_that_reads_back() {
    for n in [0u128, 1, 73_333_333_333, 84_999_999_999, 110_010_000_000, u64::MAX as u128] {
        let d = nanos(n);
        let token = serde_json::value::RawValue::from_string(d.to_text()).unwrap();
        let written = serde_json::to_string(&token).unwrap();
        assert_eq!(written, d.to_text());
        let value: serde_json::Value = serde_json::from_str(&written).unwrap();
        assert!(value.is_number());
        let read: Box<serde_json::value::RawValue> = serde_json::from_str(&written).unwrap();
        assert_eq!(Decimal::from_text(read.get()), Some(d));
    }
}
