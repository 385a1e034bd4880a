use houndify::{parse_response, Disambiguation, ErrorKind};

#[test]
fn error_status_reply_parses() {
    let body = r#"{"Status":"Error","ErrorMessage":"x","QueryID":"q","Format":"f","FormatVersion":"1.0"}"#;
    let r = parse_response(body).unwrap();
    assert_eq!(r.status, "Error");
    assert_eq!(r.error_message, Some("x".to_string()));
    assert_eq!(r.num_to_return, None);
    assert_eq!(r.query_id, "q");
    assert_eq!(r.format, "f");
    assert_eq!(r.format_version, "1.0");
    assert!(r.all_results.is_none());
}

#[test]
fn missing_query_id_is_a_parse_error() {
    let body = r#"{"Status":"OK","Format":"f","FormatVersion":"1.0"}"#;
    let err = parse_response(body).unwrap_err();
    assert_eq!(err.kind(), ErrorKind::Parse);
    assert!(err.message().contains("QueryID"));
}

#[test]
fn result_arrays_keep_their_length() {
    for n in [0usize, 1, 3] {
        let results: Vec<String> = (0..n).map(|i| format!(r#"{{"CommandKind":"K{}"}}"#, i)).collect();
        let finals: Vec<&str> = (0..n).map(|_| "true").collect();
        let body = format!(
            r#"{{"Status":"OK","QueryID":"q","Format":"f","FormatVersion":"1.0","NumToReturn":{},"AllResults":[{}],"ResultsAreFinal":[{}]}}"#,
            n,
            results.join(","),
            finals.join(",")
        );
        let r = parse_response(&body).unwrap();
        assert_eq!(r.all_results.as_ref().unwrap().len(), n);
        assert_eq!(r.results_are_final.as_ref().unwrap().len(), n);
        assert_eq!(r.num_to_return, Some(n as i64));
    }
}

#[test]
fn full_ok_reply_parses() {
    let body = r#"{
        "Format": "SoundHoundVoiceSearchResult",
        "FormatVersion": "1.0",
        "Status": "OK",
        "NumToReturn": 1,
        "AllResults": [{"CommandKind": "InformationCommand", "SpokenResponse": "2"}],
        "Disambiguation": {"NumToShow": 1, "ChoiceData": {"Transcription": "what is one plus one", "ConfidenceScore": 1, "FormattedTranscription": "what is 1 + 1"}},
        "ResultsAreFinal": [true],
        "DomainUsage": [{"Domain": "Arithmetic", "DomainUniqueID": "abc", "CreditsUsed": 0.5}],
        "BuildInfo": {"User": "builder", "SVNRevision": "123", "Kind": null},
        "QueryID": "q-1",
        "ServerGeneratedId": "q-1",
        "AudioLength": 1.25,
        "RealTime": 2,
        "CpuTime": null,
        "LocalOrRemote": "local",
        "SomethingNew": [1, 2, 3]
    }"#;
    let r = parse_response(body).unwrap();
    assert_eq!(r.status, "OK");
    assert_eq!(r.num_to_return, Some(1));
    let results = r.all_results.as_ref().unwrap();
    assert_eq!(results[0]["SpokenResponse"], "2");
    assert_eq!(r.results_are_final, Some(vec![true]));
    let usage = r.domain_usage.as_ref().unwrap();
    assert_eq!(usage.len(), 1);
    assert_eq!(usage[0].domain, "Arithmetic");
    assert_eq!(usage[0].domain_unique_id, "abc");
    assert_eq!(usage[0].credits_used.as_f64(), Some(0.5));
    let build = r.build_info.as_ref().unwrap();
    assert_eq!(build.user.as_deref(), Some("builder"));
    assert_eq!(build.svn_revision.as_deref(), Some("123"));
    assert_eq!(build.kind, None);
    assert_eq!(build.machine, None);
    assert_eq!(r.query_id, "q-1");
    assert_eq!(r.server_generated_id.as_deref(), Some("q-1"));
    assert_eq!(r.audio_length.as_ref().and_then(|n| n.as_f64()), Some(1.25));
    assert_eq!(r.real_time.as_ref().and_then(|n| n.as_f64()), Some(2.0));
    assert!(r.cpu_time.is_none());
    assert!(r.real_speech_time.is_none());
    assert_eq!(r.local_or_remote.as_deref(), Some("local"));
    assert_eq!(r.local_or_remote_reason, None);
    let d = Disambiguation::from_object(r.disambiguation.as_ref().unwrap()).unwrap();
    assert_eq!(d.num_to_show, 1);
    assert_eq!(d.choice_data.transcription, "what is one plus one");
    assert_eq!(d.choice_data.confidence_score, 1);
    assert_eq!(d.choice_data.formatted_transcription, "what is 1 + 1");
    assert_eq!(d.choice_data.fixed_transcription, None);
}

#[test]
fn malformed_json_is_a_parse_error() {
    let err = parse_response("{\"Status\": ").unwrap_err();
    assert_eq!(err.kind(), ErrorKind::Parse);
    assert!(!err.message().is_empty());
}

#[test]
fn non_object_body_is_a_parse_error() {
    assert_eq!(parse_response("[1, 2]").unwrap_err().kind(), ErrorKind::Parse);
    assert_eq!(parse_response("\"OK\"").unwrap_err().kind(), ErrorKind::Parse);
}

#[test]
fn mistyped_members_are_parse_errors() {
    let base = r#""QueryID":"q","Format":"f","FormatVersion":"1.0""#;
    let cases = [
        format!(r#"{{"Status":1,{}}}"#, base),
        format!(r#"{{"Status":null,{}}}"#, base),
        format!(r#"{{"Status":"OK","NumToReturn":"1",{}}}"#, base),
        format!(r#"{{"Status":"OK","NumToReturn":1.5,{}}}"#, base),
        format!(r#"{{"Status":"OK","NumToReturn":18446744073709551615,{}}}"#, base),
        format!(r#"{{"Status":"OK","ResultsAreFinal":[true,1],{}}}"#, base),
        format!(r#"{{"Status":"OK","AllResults":[{{}},2],{}}}"#, base),
        format!(r#"{{"Status":"OK","DomainUsage":[{{"Domain":"d","DomainUniqueID":"i"}}],{}}}"#, base),
        format!(r#"{{"Status":"OK","BuildInfo":{{"User":5}},{}}}"#, base),
        format!(r#"{{"Status":"OK","AudioLength":"long",{}}}"#, base),
    ];
    for body in cases.iter() {
        assert_eq!(parse_response(body).unwrap_err().kind(), ErrorKind::Parse, "{}", body);
    }
}

#[test]
fn null_optional_members_read_as_absent() {
    let body = r#"{"Status":"OK","QueryID":"q","Format":"f","FormatVersion":"1.0","ErrorMessage":null,"NumToReturn":null,"AllResults":null,"BuildInfo":null}"#;
    let r = parse_response(body).unwrap();
    assert_eq!(r.error_message, None);
    assert_eq!(r.num_to_return, None);
    assert!(r.all_results.is_none());
    assert!(r.build_info.is_none());
}

#[test]
fn disambiguation_needs_choice_data() {
    let o: serde_json::Map<String, serde_json::Value> = serde_json::from_str(r#"{"NumToShow":2}"#).unwrap();
    assert!(Disambiguation::from_object(&o).is_none());
}
