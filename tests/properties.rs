use libpostal_rs::acquire::{
    FallbackChain, FallbackStep,
    backoff, is_accepted_status, next_chunk_action, ChunkAction, ChunkAssembler, ChunkEvent,
    ComponentPlan,
};
use libpostal_rs::data::{
    acquisition_order, check_component_version, get_component_info, get_version_file_path,
    resolve_data_dir, DataComponent, DataConfig, DataDirProbe, DataDirStatus, DataManager,
    REQUIRED_FILE_COUNT,
};
use libpostal_rs::init::{InitGate, SetupResults, SetupRoute};
use libpostal_rs::native::{
    convert_texts, normalize_string, parse_address, AddressComponent, NormalizeRequest,
    ParseOptions, ParseRequest, RawEntry,
};
use libpostal_rs::profiling::{average_micros, format_bytes};
use libpostal_rs::status::rss_bytes_from_status;
use libpostal_rs::text::decimal_text;
use libpostal_rs::{
    AddressNormalizer, AddressParser, Country, Error, Language, LibPostal, LibPostalConfig,
    NormalizationLevel, ParsedAddress,
};
use std::cell::Cell;

fn component(label: &str, value: &str) -> AddressComponent {
    AddressComponent { label: label.to_string(), value: value.to_string() }
}

fn entry(label: Option<&[u8]>, value: Option<&[u8]>) -> RawEntry {
    RawEntry { label: label.map(|b| b.to_vec()), value: value.map(|b| b.to_vec()) }
}

fn no_parse(_req: ParseRequest) -> Result<Option<Vec<RawEntry>>, Error> {
    panic!("the native parser must not be reached")
}

fn no_normalize(_req: NormalizeRequest) -> Result<Option<Vec<Option<Vec<u8>>>>, Error> {
    panic!("the native normalizer must not be reached")
}

fn status(sizes: &[Option<u64>]) -> DataDirStatus {
    DataDirStatus { dir_exists: true, file_sizes: sizes.to_vec() }
}

fn full_sizes() -> Vec<Option<u64>> {
    vec![Some(10); REQUIRED_FILE_COUNT]
}

#[test]
fn nul_in_address_is_boundary_error_without_native_call() {
    let none = ParseOptions { language: None, country: None };
    let r = parse_address("12\0 Main", &none, no_parse);
    assert!(matches!(r, Err(Error::FfiError { ref message }) if message == "Invalid address string"));
    let bad_lang = ParseOptions { language: Some("e\0n".to_string()), country: None };
    let r = parse_address("12 Main", &bad_lang, no_parse);
    assert!(matches!(r, Err(Error::FfiError { ref message }) if message == "Invalid language string"));
    let bad_country = ParseOptions { language: None, country: Some("U\0S".to_string()) };
    let r = parse_address("12 Main", &bad_country, no_parse);
    assert!(matches!(r, Err(Error::FfiError { ref message }) if message == "Invalid country string"));
}

#[test]
fn nul_in_normalize_input_is_boundary_error_without_native_call() {
    let n = AddressNormalizer::new();
    let r = n.normalize("St\0", no_normalize);
    assert!(matches!(r, Err(Error::FfiError { ref message }) if message == "Invalid input string"));
    let r = normalize_string("\0", n.options(), no_normalize);
    assert!(matches!(r, Err(Error::FfiError { .. })));
}

#[test]
fn null_parse_result_is_parse_error() {
    let parser = AddressParser::new();
    let r = parser.parse("123 Main St", |_req: ParseRequest| Ok(None));
    assert!(matches!(r, Err(Error::ParseError { .. })));
}

#[test]
fn native_error_is_passed_on() {
    let parser = AddressParser::new();
    let r = parser.parse("123 Main St", |_req: ParseRequest| {
        Err(Error::initialization_failed("no data"))
    });
    assert!(matches!(r, Err(Error::InitializationFailed { ref message }) if message == "no data"));
}

#[test]
fn null_expansion_result_is_empty_list() {
    let n = AddressNormalizer::new();
    let r = n.normalize("zzz", |_req: NormalizeRequest| Ok(None)).unwrap();
    assert_eq!(r.original, "zzz");
    assert!(r.expansions.is_empty());
    assert!(r.is_empty());
}

#[test]
fn expansions_keep_native_order_and_skip_nulls() {
    let n = AddressNormalizer::new();
    let r = n
        .normalize("St", |req: NormalizeRequest| {
            assert_eq!(req.input, "St");
            assert!(req.options.lowercase);
            Ok(Some(vec![Some(b"street".to_vec()), None, Some(b"saint".to_vec())]))
        })
        .unwrap();
    assert_eq!(r.expansions, vec!["street".to_string(), "saint".to_string()]);
    assert_eq!(r.primary(), Some("street"));
}

#[test]
fn parse_request_carries_hints_and_result_is_folded() {
    let parser = AddressParser::new()
        .with_language(Language::English)
        .with_country(Country::UnitedStates);
    let r = parser
        .parse("123 Main St, New York, NY 10001", |req: ParseRequest| {
            assert_eq!(req.address, "123 Main St, New York, NY 10001");
            assert_eq!(req.language.as_deref(), Some("en"));
            assert_eq!(req.country.as_deref(), Some("US"));
            Ok(Some(vec![
                entry(Some(b"house_number"), Some(b"123")),
                entry(None, Some(b"lost")),
                entry(Some(b"road"), Some(b"main st")),
                entry(Some(b"city"), None),
                entry(Some(b"city"), Some(b"new york")),
                entry(Some(b"state"), Some(b"ny")),
                entry(Some(b"postcode"), Some(b"10001")),
            ]))
        })
        .unwrap();
    assert_eq!(r.house_number.as_deref(), Some("123"));
    assert_eq!(r.road.as_deref(), Some("main st"));
    assert_eq!(r.city.as_deref(), Some("new york"));
    assert_eq!(r.postcode.as_deref(), Some("10001"));
    assert!(r.other.is_empty());
}

#[test]
fn fold_of_synthetic_components() {
    let parsed = ParsedAddress::from_components(vec![
        component("house_number", "123"),
        component("road", "Main St"),
        component("unknown_label", "X"),
    ]);
    assert_eq!(parsed.house_number.as_deref(), Some("123"));
    assert_eq!(parsed.road.as_deref(), Some("Main St"));
    assert_eq!(parsed.other, vec!["X".to_string()]);
    assert_eq!(parsed.city, None);
}

#[test]
fn fold_last_write_wins() {
    let parsed = ParsedAddress::from_components(vec![
        component("city", "Boston"),
        component("city", "New York"),
        component("other_label", "A"),
        component("another", "B"),
    ]);
    assert_eq!(parsed.city.as_deref(), Some("New York"));
    assert_eq!(parsed.other, vec!["A".to_string(), "B".to_string()]);
    let listed = parsed.components();
    let labels: Vec<&str> = listed.iter().map(|c| c.label.as_str()).collect();
    assert_eq!(labels, vec!["city", "other_0", "other_1"]);
}

#[test]
fn is_empty_only_without_any_value() {
    assert!(ParsedAddress::new().is_empty());
    let mut p = ParsedAddress::default();
    p.other.push("x".to_string());
    assert!(!p.is_empty());
    let mut q = ParsedAddress::default();
    q.toponym = Some("Eiffel Tower".to_string());
    assert!(!q.is_empty());
}

#[test]
fn parse_batch_stops_at_first_failure() {
    let parser = AddressParser::new();
    let native = |req: ParseRequest| -> Result<Option<Vec<RawEntry>>, Error> {
        Ok(Some(vec![entry(Some(b"road"), Some(req.address.as_bytes()))]))
    };
    let ok = parser.parse_batch(&["a", "b"], native).unwrap();
    assert_eq!(ok[0].road.as_deref(), Some("a"));
    assert_eq!(ok[1].road.as_deref(), Some("b"));
    let err = parser.parse_batch(&["a", "b\0", "c"], native);
    assert!(matches!(err, Err(Error::FfiError { .. })));
}

#[test]
fn keep_only_successful_results() {
    let mut a = ParsedAddress::default();
    a.road = Some("a".to_string());
    let mut b = ParsedAddress::default();
    b.road = Some("b".to_string());
    let kept = AddressParser::parse_batch_ok(vec![
        Ok(a),
        Err(Error::parse_error("x")),
        Ok(b),
    ]);
    assert_eq!(kept.len(), 2);
    assert_eq!(kept[1].road.as_deref(), Some("b"));
}

#[test]
fn lossy_decoding_replaces_invalid_bytes() {
    let texts = convert_texts(&vec![Some(vec![b'a', 0xFF, b'b']), None, Some("Hé".as_bytes().to_vec())]);
    assert_eq!(texts, vec!["a\u{FFFD}b".to_string(), "Hé".to_string()]);
}

#[test]
fn initialization_runs_setup_once_and_keeps_outcome() {
    let calls = Cell::new(0);
    let mut gate = InitGate::new();
    let first = gate.initialize(false, "/nowhere", |route: SetupRoute| {
        calls.set(calls.get() + 1);
        assert!(matches!(route, SetupRoute::LibraryDefault));
        SetupResults { base: true, parser: false, classifier: true }
    });
    let second = gate.initialize(true, "/data", |_route: SetupRoute| {
        calls.set(calls.get() + 1);
        SetupResults { base: true, parser: true, classifier: true }
    });
    assert_eq!(calls.get(), 1);
    let m1 = first.unwrap_err();
    let m2 = second.unwrap_err();
    assert_eq!(
        m1.message(),
        "libpostal initialization failed - data files not found. Run data download first."
    );
    assert_eq!(m1.message(), m2.message());
    assert!(gate.is_settled());
}

#[test]
fn initialization_distinguishes_rejected_data() {
    let mut gate = InitGate::new();
    let r = gate.initialize(true, "/data", |route: SetupRoute| {
        assert!(matches!(route, SetupRoute::DataDir(ref d) if d == "/data"));
        SetupResults { base: true, parser: true, classifier: false }
    });
    assert_eq!(r.unwrap_err().message(), "libpostal initialization failed");
    let mut gate = InitGate::new();
    let r = gate.initialize(true, "/da\0ta", |_route: SetupRoute| -> SetupResults {
        panic!("no setup with an invalid directory")
    });
    assert_eq!(r.unwrap_err().message(), "Invalid data directory path");
}

#[test]
fn availability_agrees_with_verification() {
    let m = DataManager::with_data_dir("/data");
    let good = status(&full_sizes());
    assert!(m.is_data_available(&good));
    assert!(m.verify_data(&good).is_ok());

    let mut sizes = full_sizes();
    sizes[3] = Some(0);
    let empty = status(&sizes);
    assert!(!m.is_data_available(&empty));
    let e = m.verify_data(&empty).unwrap_err();
    assert!(matches!(e, Error::DataError { .. }));
    assert_eq!(e.message(), "Empty data file: address_parser/address_parser_crf.dat");

    let mut sizes = full_sizes();
    sizes[1] = None;
    sizes[5] = Some(0);
    let missing = status(&sizes);
    assert!(!m.is_data_available(&missing));
    assert_eq!(m.verify_data(&missing).unwrap_err().message(), "Missing data file: numex/numex.dat");

    let no_dir = DataDirStatus { dir_exists: false, file_sizes: full_sizes() };
    assert!(!m.is_data_available(&no_dir));
    assert_eq!(
        m.verify_data(&no_dir).unwrap_err().message(),
        "Missing data file: address_expansions/address_dictionary.dat"
    );

    let short = status(&[Some(1)]);
    assert!(!m.is_data_available(&short));
    assert!(m.verify_data(&short).is_err());
}

#[test]
fn ensure_plan_follows_configuration() {
    let m = DataManager::with_data_dir("/data");
    let missing = status(&[]);
    let plan = m.ensure_data_plan(&missing).unwrap();
    assert!(plan.acquire && plan.verify);
    let mut config = DataConfig::new("/data");
    config.auto_download = false;
    config.verify_integrity = false;
    let m = DataManager::with_config(config);
    let e = m.ensure_data_plan(&missing).unwrap_err();
    assert_eq!(e.message(), "Data files not available and auto_download is disabled");
    let plan = m.ensure_data_plan(&status(&full_sizes())).unwrap();
    assert!(!plan.acquire && !plan.verify);
}

#[test]
fn up_to_date_component_plans_nothing() {
    let m = DataManager::with_data_dir("/data");
    assert!(matches!(m.plan_component(DataComponent::Parser, Some("v1.0.0\n")), ComponentPlan::UpToDate));
    assert!(matches!(m.plan_component(DataComponent::Base, Some("  v1.0.0 ")), ComponentPlan::UpToDate));
    assert!(matches!(m.plan_component(DataComponent::Base, Some("v0.9")), ComponentPlan::Fetch(_)));
    assert!(check_component_version(DataComponent::LanguageClassifier, Some("v1.0.0")));
    assert!(!check_component_version(DataComponent::LanguageClassifier, None));
}

#[test]
fn multipart_plan_has_contiguous_ranges() {
    let m = DataManager::with_data_dir("/data");
    let plan = match m.plan_component(DataComponent::Parser, None) {
        ComponentPlan::Fetch(p) => p,
        ComponentPlan::UpToDate => panic!("a fetch was expected"),
    };
    assert_eq!(plan.url, "https://github.com/openvenues/libpostal/releases/download/v1.0.0/parser.tar.gz");
    assert_eq!(plan.archive_path, "/data/parser.tar.gz");
    assert_eq!(plan.chunks.len(), 12);
    assert_eq!(plan.chunks[0].start, 0);
    assert_eq!(plan.chunks[0].end, 67108863);
    assert_eq!(plan.chunks[1].start, 67108864);
    assert_eq!(plan.chunks[11].end, 12 * 67108864 - 1);
    assert_eq!(plan.chunks[1].header(), "bytes=67108864-134217727");
    assert_eq!(plan.chunk_paths[0], "/data/parser.tar.part1");
    assert_eq!(plan.chunk_paths[11], "/data/parser.tar.part12");
    assert_eq!(plan.stale_dirs, vec!["/data/address_parser".to_string()]);
    assert_eq!(plan.version_file, "/data/parser_model_file_version");
    assert_eq!(plan.version, "v1.0.0");

    let single = match m.plan_component(DataComponent::Base, None) {
        ComponentPlan::Fetch(p) => p,
        ComponentPlan::UpToDate => panic!("a fetch was expected"),
    };
    assert!(single.chunks.is_empty());
    assert_eq!(single.stale_dirs.len(), 3);
}

#[test]
fn reassembly_ignores_arrival_order() {
    let mut a = ChunkAssembler::new(3);
    a.record(2, vec![5, 6]);
    assert!(!a.is_complete());
    assert_eq!(a.assemble(), None);
    a.record(0, vec![1, 2]);
    a.record(1, vec![3, 4]);
    assert!(a.is_complete());
    assert_eq!(a.assemble(), Some(vec![1, 2, 3, 4, 5, 6]));
}

#[test]
fn retry_decisions() {
    assert!(is_accepted_status(200));
    assert!(is_accepted_status(206));
    assert!(!is_accepted_status(404));
    assert_eq!(next_chunk_action(0, 3, ChunkEvent::Response(206)), ChunkAction::Store);
    assert_eq!(next_chunk_action(0, 3, ChunkEvent::Response(500)), ChunkAction::Fail);
    assert_eq!(
        next_chunk_action(0, 3, ChunkEvent::TransportError),
        ChunkAction::RetryAfter { failures: 1, delay_seconds: 2 }
    );
    assert_eq!(next_chunk_action(2, 3, ChunkEvent::TransportError), ChunkAction::Fail);
    assert_eq!(backoff(3), 8);
    assert_eq!(backoff(64), u64::MAX);
}

#[test]
fn component_table_and_paths() {
    let info = get_component_info(DataComponent::Parser);
    assert_eq!(info.num_chunks, 12);
    assert_eq!(info.filename, "parser.tar.gz");
    assert_eq!(get_component_info(DataComponent::Base).subdirs.len(), 3);
    assert_eq!(
        get_version_file_path(DataComponent::Base, "/data"),
        "/data/base_data_file_version"
    );
    assert_eq!(
        acquisition_order(),
        vec![DataComponent::Base, DataComponent::Parser, DataComponent::LanguageClassifier]
    );
    let m = DataManager::with_data_dir("/data");
    assert_eq!(m.required_paths()[1], "/data/numex/numex.dat");
}

#[test]
fn data_dir_resolution_order() {
    let probe = DataDirProbe {
        env_dir: Some("/env".to_string()),
        env_dir_exists: true,
        build_dir: Some("/build".to_string()),
        build_dir_exists: true,
        project_dir_exists: true,
        cache_dir: Some("/cache".to_string()),
    };
    assert_eq!(resolve_data_dir(&probe), "/env");
    let probe = DataDirProbe { env_dir_exists: false, ..probe };
    assert_eq!(resolve_data_dir(&probe), "/build");
    let probe = DataDirProbe { build_dir_exists: false, ..probe };
    assert_eq!(resolve_data_dir(&probe), "data/libpostal");
    let probe = DataDirProbe { project_dir_exists: false, ..probe };
    assert_eq!(resolve_data_dir(&probe), "/cache/libpostal-rs");
    let probe = DataDirProbe { cache_dir: None, ..probe };
    assert_eq!(resolve_data_dir(&probe), ".libpostal-rs");
}

#[test]
fn normalizer_levels_and_languages() {
    let n = AddressNormalizer::new().with_level(NormalizationLevel::Light);
    assert!(!n.options().transliterate && !n.options().decompose && n.options().lowercase);
    let n = n.with_level(NormalizationLevel::Aggressive).with_lowercase(false).with_latin_ascii(true);
    assert!(n.options().expand_numex && !n.options().lowercase && n.options().latin_ascii);
    let n = n.with_languages(&[Language::French, Language::Custom("xx".to_string())]);
    assert_eq!(n.options().languages, vec!["fr".to_string(), "xx".to_string()]);
    assert_eq!(NormalizationLevel::default(), NormalizationLevel::Medium);
}

#[test]
fn hints_from_codes() {
    let config = LibPostalConfig::builder(DataConfig::new("/data")).auto_download_data(false).build();
    let postal = LibPostal::from_outcomes(config, Err(Error::data_error("skipped")), Ok(())).unwrap();
    let r = postal.parse_address_with_hints("1 Rue", Some("fr"), Some("fr"), |req: ParseRequest| {
        assert_eq!(req.language.as_deref(), Some("fr"));
        assert_eq!(req.country.as_deref(), Some("FR"));
        Ok(Some(vec![]))
    });
    assert!(r.unwrap().is_empty());
    assert_eq!(Country::from_str("gb"), Country::UnitedKingdom);
    assert_eq!(Language::from_str("zh-TW"), Language::ChineseTraditional);
}

#[test]
fn startup_outcomes() {
    let config = LibPostalConfig::builder(DataConfig::new("/data")).build();
    let r = LibPostal::from_outcomes(config.clone(), Err(Error::network_error("down")), Ok(()));
    assert!(matches!(r, Err(Error::NetworkError { .. })));
    let r = LibPostal::from_outcomes(config.clone(), Ok(()), Err(Error::initialization_failed("x")));
    assert!(matches!(r, Err(Error::InitializationFailed { .. })));
    let p = LibPostal::from_outcomes(config, Ok(()), Ok(())).unwrap();
    assert!(p.config().auto_download_data);
    let built = LibPostalConfig::builder(DataConfig::new("/a")).data_dir("/b").verify_data_integrity(false).build();
    assert_eq!(built.data_config.data_dir, "/b");
    assert!(!built.verify_data_integrity);
}

#[test]
fn error_constructors() {
    assert!(matches!(Error::normalization_error("n"), Error::NormalizationError { .. }));
    assert!(matches!(Error::io_error("i"), Error::IoError { .. }));
    assert!(matches!(Error::ffi_error("f"), Error::FfiError { .. }));
    assert_eq!(Error::parse_error("p").message(), "p");
    assert_eq!(Error::data_error("gone").to_string(), "Data error: gone");
    assert_eq!(Error::ffi_error("bad").to_string(), "FFI error: bad");
}

#[test]
fn sizes_and_means() {
    assert_eq!(format_bytes(0), "0 B");
    assert_eq!(format_bytes(1023), "1023 B");
    assert_eq!(format_bytes(1152), "1.12 KB");
    assert_eq!(format_bytes(1049), "1.02 KB");
    assert_eq!(format_bytes(1099511627776), "1.00 TB");
    assert_eq!(format_bytes(1099511627776 * 2048), "2048.00 TB");
    assert_eq!(average_micros(150, 2), 75);
    assert_eq!(average_micros(150, 0), 0);
    assert_eq!(decimal_text(9070), "9070");
}

#[test]
fn resident_size_from_status_text() {
    assert_eq!(rss_bytes_from_status("Name:\tx\nVmRSS:\t  1234 kB\nVmSwap: 0 kB\n"), Some(1234 * 1024));
    assert_eq!(rss_bytes_from_status("VmRSS:\nVmRSS: 5 kB"), Some(5120));
    assert_eq!(rss_bytes_from_status("VmRSS: +7 kB\r\n"), Some(7168));
    assert_eq!(rss_bytes_from_status("VmRSS: abc kB\nVmRSS: 5 kB"), None);
    assert_eq!(rss_bytes_from_status("Name: x\n"), None);
    assert_eq!(rss_bytes_from_status(""), None);
    assert_eq!(rss_bytes_from_status("VmRSS: 99999999999999999999999 kB"), None);
}

#[test]
fn parallel_batch_keeps_order_and_drops_failures() {
    let parser = AddressParser::new();
    let native = |req: ParseRequest| -> Result<Option<Vec<RawEntry>>, Error> {
        Ok(Some(vec![entry(Some(b"road"), Some(req.address.as_bytes()))]))
    };
    let all = parser.parse_batch_parallel(&["a", "b\0", "c"], native);
    assert_eq!(all.len(), 3);
    assert!(all[1].is_err());
    let kept = parser.parse_batch_parallel_ok(&["a", "b\0", "c"], native);
    let roads: Vec<Option<String>> = kept.into_iter().map(|p| p.road).collect();
    assert_eq!(roads, vec![Some("a".to_string()), Some("c".to_string())]);
}

#[test]
fn fallback_chain_reports_every_failure() {
    let mut chain = FallbackChain::new(3);
    assert!(matches!(chain.record(Err(Error::network_error("offline"))), FallbackStep::Next(1)));
    assert!(matches!(chain.record(Err(Error::data_error("no copy"))), FallbackStep::Next(2)));
    match chain.record(Err(Error::data_error("no mirror"))) {
        FallbackStep::Failed(e) => {
            assert_eq!(e.message(), "All data sources failed: offline; no copy; no mirror")
        }
        _ => panic!("every source failed"),
    }
    let mut chain = FallbackChain::new(2);
    assert!(matches!(chain.record(Err(Error::network_error("offline"))), FallbackStep::Next(1)));
    assert!(matches!(chain.record(Ok(())), FallbackStep::Done));
}

#[test]
fn second_acquisition_plans_no_fetch() {
    let m = DataManager::with_data_dir("/data");
    let installed = vec![Some("v1.0.0".to_string()); 3];
    let plans = m.plan_acquisition(&installed);
    assert!(plans.iter().all(|p| matches!(p, ComponentPlan::UpToDate)));
    let partial = vec![Some("v1.0.0".to_string()), None, Some("v0.1".to_string())];
    let plans = m.plan_acquisition(&partial);
    assert!(matches!(plans[0], ComponentPlan::UpToDate));
    assert!(matches!(plans[1], ComponentPlan::Fetch(ref p) if p.chunks.len() == 12));
    assert!(matches!(plans[2], ComponentPlan::Fetch(ref p) if p.chunks.is_empty()));
}
