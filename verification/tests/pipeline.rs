use ream::ream::{Entry, ParseErrorType, ReamError, ScanErrorType, TypeErrorType};
use ream_playground::{parse, pipeline, ParseResult, PipelineOutcome, RenderFault, Target};

#[test]
fn classify_entry() {
    let entry = Entry::new("Title".to_string(), 1);
    assert_eq!(
        parse::classify(Ok(Some(entry.clone()))),
        ParseResult::Parsed(entry)
    );
}

#[test]
fn classify_nothing() {
    assert_eq!(parse::classify(Ok(None)), ParseResult::NoEntry);
}

#[test]
fn classify_errors_by_their_debug_text() {
    assert_eq!(
        parse::classify(Err(ReamError::ScanError(ScanErrorType::MissingEOL))),
        ParseResult::ParseFailed("ScanError(MissingEOL)".to_string())
    );
    assert_eq!(
        parse::classify(Err(ReamError::ParseError(ParseErrorType::MissingSubentry))),
        ParseResult::ParseFailed("ParseError(MissingSubentry)".to_string())
    );
    assert_eq!(
        parse::classify(Err(ReamError::TypeError(TypeErrorType::HeterogeneousList))),
        ParseResult::ParseFailed("TypeError(HeterogeneousList)".to_string())
    );
}

#[test]
fn parse_title() {
    assert_eq!(
        parse::run("# Title"),
        ParseResult::Parsed(Entry::new("Title".to_string(), 1))
    );
}

#[test]
fn parse_reads_the_text_it_is_given() {
    assert_eq!(
        parse::run("# Other"),
        ParseResult::Parsed(Entry::new("Other".to_string(), 1))
    );
    assert_ne!(parse::run("# Other"), parse::run("# Title"));
}

#[test]
fn parse_failures() {
    let cases = [
        ("", "ParseError(MissingHeaderLevel)"),
        ("\n\n", "ParseError(MissingHeaderLevel)"),
        ("!!!not valid!!!", "ScanError(InvalidToken)"),
        ("#Title", "ScanError(InvalidToken)"),
        ("#", "ScanError(InvalidToken)"),
        ("#\n", "ScanError(WrongHeaderLevel)"),
        ("# ", "ScanError(MissingClass)"),
        ("- key: value", "ParseError(MissingHeaderLevel)"),
        ("# A\n- key value", "ScanError(MissingColon)"),
        ("# A\n- key", "ScanError(MissingKey)"),
        ("# A\n- key:", "ParseError(MissingValue)"),
        ("# A\n- n (num): abc", "TypeError(InvalidNumber)"),
        ("# A\n- b (bool): yes", "TypeError(InvalidBoolean)"),
        ("# A\n- v (date): x", "TypeError(UnknownType)"),
        ("# A\n### C", "ParseError(WrongHeaderLevel)"),
        ("# A\n- l:\n* 1\n* x", "TypeError(HeterogeneousList)"),
    ];
    for (text, diagnostic) in cases {
        assert_eq!(
            parse::run(text),
            ParseResult::ParseFailed(diagnostic.to_string()),
            "{:?}",
            text
        );
    }
}

#[test]
fn render_selects_by_target() {
    let entry = Entry::new("Title".to_string(), 1);
    assert_eq!(
        pipeline::render(Target::CSV, entry.clone()).unwrap(),
        "\n"
    );
    assert_eq!(
        pipeline::render(Target::AST, entry).unwrap(),
        "{\n  \"class\": \"Title\",\n  \"level\": 1,\n  \"variables\": [],\n  \"subentries\": []\n}"
    );
}

#[test]
fn conclude_success() {
    assert_eq!(
        pipeline::conclude(Target::CSV, Ok("a,b\n".to_string())),
        Ok(PipelineOutcome::Success("a,b\n".to_string()))
    );
}

#[test]
fn conclude_fault() {
    assert_eq!(
        pipeline::conclude(Target::AST, Err(ReamError::TypeError(TypeErrorType::UnknownType))),
        Err(RenderFault {
            target: Target::AST,
            diagnostic: "TypeError(UnknownType)".to_string(),
        })
    );
    assert_eq!(
        pipeline::conclude(Target::CSV, Err(ReamError::ParseError(ParseErrorType::MissingToken))),
        Err(RenderFault {
            target: Target::CSV,
            diagnostic: "ParseError(MissingToken)".to_string(),
        })
    );
}

#[test]
fn render_parsed_by_class() {
    assert_eq!(
        pipeline::render_parsed(ParseResult::NoEntry, Target::CSV),
        Ok(PipelineOutcome::Unchanged)
    );
    assert_eq!(
        pipeline::render_parsed(
            ParseResult::ParseFailed("ScanError(InvalidType)".to_string()),
            Target::AST
        ),
        Ok(PipelineOutcome::Failure("ScanError(InvalidType)".to_string()))
    );
    assert_eq!(
        pipeline::render_parsed(
            ParseResult::Parsed(Entry::new("Title".to_string(), 1)),
            Target::CSV
        ),
        Ok(PipelineOutcome::Success("\n".to_string()))
    );
}

#[test]
fn run_csv_with_subentries() {
    let text = "# Country\n- name: Belgium\n- population (num): 11\n## City\n- name: Brussels\n## City\n- name: Ghent\n";
    assert_eq!(
        pipeline::run(text, Target::CSV, ""),
        Ok(PipelineOutcome::Success(
            "Belgium,11,Brussels\nBelgium,11,Ghent\n".to_string()
        ))
    );
}

#[test]
fn run_csv_with_list() {
    let text = "# A\n- tags (list str):\n* red\n* green\n- n: 3";
    assert_eq!(
        pipeline::run(text, Target::CSV, ""),
        Ok(PipelineOutcome::Success("red;green,3\n".to_string()))
    );
}

#[test]
fn run_ast_with_variable() {
    let expected = "{\n  \"class\": \"Title\",\n  \"level\": 1,\n  \"variables\": [\n    {\n      \"key\": \"key\",\n      \"value\": {\n        \"content\": {\n          \"Str\": \"value\"\n        },\n        \"annotation\": \"note\"\n      }\n    }\n  ],\n  \"subentries\": []\n}";
    assert_eq!(
        pipeline::run("# Title\n- key: value\n> note", Target::AST, ""),
        Ok(PipelineOutcome::Success(expected.to_string()))
    );
}

#[test]
fn run_failure_carries_the_diagnostic() {
    assert_eq!(
        pipeline::run("!!!not valid!!!", Target::CSV, "previous,csv"),
        Ok(PipelineOutcome::Failure("ScanError(InvalidToken)".to_string()))
    );
}

#[test]
fn run_is_deterministic() {
    let texts = ["# Title", "", "!!!not valid!!!", "# A\n- x: 1\n## B\n- y: 2"];
    for text in texts {
        for target in [Target::CSV, Target::AST] {
            let first = pipeline::run(text, target, "");
            let second = pipeline::run(text, target, "something else");
            assert_eq!(first, second);
        }
    }
}
