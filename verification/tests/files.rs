use std::collections::BTreeMap;

use reth_tdx::attestation::{IssueResponseData, MetadataResponseData, Response};
use reth_tdx::bootstrap::{
    bootstrap, load_bootstrap_response, ping_attestation, verify_disk_consistency, BootstrapStart,
};
use reth_tdx::config::LOCAL_L2_RPC_URL;
use reth_tdx::error::Error;
use reth_tdx::persistence::{
    bootstrap_exists, bootstrap_record_exists, config_dir, config_dir_below, generate_private_key,
    load_private_key, save_private_key, validate_issuer, write_bootstrap, BootstrapData, FileOp,
    FilePath, FilesPresent, Layout, SUPPORTED_ISSUER_TYPES,
};
use reth_tdx::primitives::Address;
use reth_tdx::runtime::{check, serve};
use reth_tdx::signature::{address_from_private_key, SecretKey};
use serde_json::Value;

/// A disk in memory.
#[derive(Default)]
struct Disk {
    dirs: Vec<FilePath>,
    records: BTreeMap<FilePath, BootstrapData>,
    secrets: BTreeMap<FilePath, (u32, Vec<u8>)>,
}

impl Disk {
    fn perform(&mut self, ops: Vec<FileOp>) {
        for op in ops {
            match op {
                FileOp::CreateDirs { path } => self.dirs.push(path),
                FileOp::WriteRecord { path, record } => {
                    self.records.insert(path, record);
                }
                FileOp::WriteSecret { path, mode, bytes } => {
                    self.secrets.insert(path, (mode, bytes.to_vec()));
                }
                FileOp::Rename { from, to } => {
                    let record = self.records.remove(&from).expect("file to rename");
                    self.records.insert(to, record);
                }
            }
        }
    }

    fn present(&self, layout: &Layout) -> FilesPresent {
        FilesPresent {
            record: self.records.contains_key(&layout.record),
            private_key: self.secrets.contains_key(&layout.private_key),
        }
    }

    fn record(&mut self, layout: &Layout) -> Result<BootstrapData, Error> {
        self.records.remove(&layout.record).ok_or(missing())
    }

    fn key(&self, layout: &Layout) -> Result<Vec<u8>, Error> {
        self.secrets
            .get(&layout.private_key)
            .map(|file| file.1.clone())
            .ok_or(missing())
    }
}

fn missing() -> Error {
    Error::External { message: "No such file or directory".to_string() }
}

fn path(text: &str) -> FilePath {
    FilePath::from_text(text)
}

fn layout() -> Layout {
    Layout::below(config_dir(Some("/home/tdx")).unwrap())
}

fn sample_address() -> Address {
    Address([0xab; 20])
}

fn metadata_reply(issuer: &str, metadata: Value) -> Result<Response<MetadataResponseData>, Error> {
    Ok(Response {
        data: Some(MetadataResponseData {
            issuer_type: issuer.to_string(),
            user_data: String::new(),
            nonce: String::new(),
            metadata,
        }),
        error: None,
    })
}

#[test]
fn validate_issuer_accepts_known_types() {
    for issuer in SUPPORTED_ISSUER_TYPES {
        validate_issuer(issuer).unwrap_or_else(|_| panic!("should accept {issuer}"));
    }
}

#[test]
fn validate_issuer_rejects_unknown() {
    let err = validate_issuer("aws-nitro").expect_err("should reject unknown issuer");
    assert!(err.to_string().contains("aws-nitro"));
}

#[test]
fn validate_issuer_is_exact() {
    for issuer in ["", "TDX", "tdx ", "td", "azuregcp"] {
        assert!(validate_issuer(issuer).is_err());
    }
}

#[test]
fn config_dir_does_not_create() {
    let dir = config_dir(Some("/nonexistent/home/of/a/prover")).unwrap();
    let dir = String::from_utf8(dir.0).unwrap();
    assert!(
        !std::path::Path::new(&dir).exists(),
        "read-only config_dir should not create the directory"
    );
}

#[test]
fn config_dir_is_below_the_named_home() {
    assert_eq!(config_dir(Some("/home/tdx")).unwrap(), path("/home/tdx/.config/reth-tdx"));
    assert_eq!(config_dir(Some("/")).unwrap(), path("/.config/reth-tdx"));
    assert_eq!(config_dir(Some("")).unwrap(), path(".config/reth-tdx"));
    let joined = std::path::Path::new("a/b/").join(".config").join("reth-tdx");
    assert_eq!(config_dir(Some("a/b/")).unwrap(), path(&joined.to_string_lossy()));
}

#[test]
fn config_dir_falls_back_to_the_home_of_the_environment() {
    let dir = config_dir_below(None, Some(path("/root"))).unwrap();
    assert_eq!(dir, path("/root/.config/reth-tdx"));
    let dir = config_dir_below(Some("/srv"), Some(path("/root"))).unwrap();
    assert_eq!(dir, path("/srv/.config/reth-tdx"));
    let dir = config_dir_below(None, Some(FilePath(vec![47, 0xff]))).unwrap();
    assert_eq!(dir.0, [&[47, 0xff][..], &b"/.config/reth-tdx"[..]].concat());
    let err = config_dir_below(None, None).expect_err("no home");
    assert_eq!(err.to_string(), "Failed to get home directory");
    match dirs::home_dir() {
        Some(home) => assert_eq!(
            config_dir(None).unwrap().0,
            home.join(".config").join("reth-tdx").into_os_string().into_encoded_bytes()
        ),
        None => assert!(config_dir(None).is_err()),
    }
}

#[test]
fn layout_has_the_documented_places() {
    let layout = layout();
    assert_eq!(layout.dir, path("/home/tdx/.config/reth-tdx"));
    assert_eq!(layout.record, path("/home/tdx/.config/reth-tdx/bootstrap.json"));
    assert_eq!(layout.record_tmp, path("/home/tdx/.config/reth-tdx/bootstrap.json.tmp"));
    assert_eq!(layout.secrets, path("/home/tdx/.config/reth-tdx/secrets"));
    assert_eq!(layout.private_key, path("/home/tdx/.config/reth-tdx/secrets/priv.key"));
}

#[test]
fn write_bootstrap_round_trips_via_read_bootstrap() {
    let mut disk = Disk::default();
    let layout = layout();
    let address = sample_address();
    let mut map = serde_json::Map::new();
    map.insert("pcr0".to_string(), Value::String("deadbeef".to_string()));
    let metadata = Value::Object(map);

    disk.perform(write_bootstrap(
        &layout,
        "tdx",
        &[0x01, 0x02, 0x03],
        &address,
        &[0xaa; 32],
        metadata.clone(),
    ));

    let data = disk.record(&layout).unwrap();
    assert_eq!(data.issuer_type, "tdx");
    assert_eq!(data.public_key, address.to_string());
    assert_eq!(data.quote, "010203");
    assert_eq!(data.nonce, hex::encode([0xaa; 32]));
    assert_eq!(data.metadata, metadata);
}

#[test]
fn write_bootstrap_is_atomic_no_tmp_remains() {
    let mut disk = Disk::default();
    let layout = layout();
    let ops = write_bootstrap(
        &layout,
        "tdx",
        &[0u8; 4],
        &sample_address(),
        &[0u8; 32],
        Value::Object(serde_json::Map::new()),
    );
    for op in &ops {
        if let FileOp::WriteRecord { path, .. } = op {
            assert_eq!(*path, layout.record_tmp, "the record is not written in its place");
        }
    }
    disk.perform(ops);
    assert!(
        !disk.records.contains_key(&path("/home/tdx/.config/reth-tdx/bootstrap.json.tmp")),
        "atomic write must leave no .tmp behind after rename"
    );
    assert!(disk.records.contains_key(&path("/home/tdx/.config/reth-tdx/bootstrap.json")));
    assert_eq!(disk.dirs, vec![layout.dir.clone()]);
}

#[test]
fn bootstrap_record_exists_detects_only_bootstrap_json() {
    let mut disk = Disk::default();
    let layout = layout();
    assert!(!bootstrap_record_exists(&disk.present(&layout)));
    disk.perform(write_bootstrap(
        &layout,
        "tdx",
        &[0u8; 4],
        &sample_address(),
        &[0u8; 32],
        Value::Object(serde_json::Map::new()),
    ));
    assert!(bootstrap_record_exists(&disk.present(&layout)));
    // priv.key absent: full bootstrap not considered complete.
    assert!(!bootstrap_exists(&disk.present(&layout)));
}

#[test]
fn generate_private_key_and_round_trip_load() {
    let mut disk = Disk::default();
    let layout = layout();
    let (key, save) = generate_private_key(&layout);
    disk.perform(save);
    let loaded = load_private_key(disk.key(&layout)).ok().unwrap();
    assert_eq!(key.secret_bytes(), loaded.secret_bytes());
}

#[test]
fn private_key_file_has_0600_permissions() {
    let mut disk = Disk::default();
    let layout = layout();
    let (_, save) = generate_private_key(&layout);
    disk.perform(save);
    let (mode, bytes) = &disk.secrets[&path("/home/tdx/.config/reth-tdx/secrets/priv.key")];
    assert_eq!(*mode, 0o600, "priv.key must be created with 0600");
    assert_eq!(bytes.len(), 32);
    assert_eq!(disk.dirs, vec![layout.dir.clone(), layout.secrets.clone()]);
}

#[test]
fn a_key_over_a_wider_file_has_0600_permissions() {
    let mut disk = Disk::default();
    let layout = layout();
    disk.secrets.insert(layout.private_key.clone(), (0o644, vec![7u8; 40]));
    let (key, save) = generate_private_key(&layout);
    disk.perform(save);
    let (mode, bytes) = &disk.secrets[&layout.private_key];
    assert_eq!(*mode, 0o600);
    assert_eq!(*bytes, key.secret_bytes().to_vec());
}

#[test]
fn bootstrap_exists_requires_both_files() {
    let mut disk = Disk::default();
    let layout = layout();
    // Only the private key: bootstrap is incomplete.
    let (_, save) = generate_private_key(&layout);
    disk.perform(save);
    assert!(!bootstrap_exists(&disk.present(&layout)));
    disk.perform(write_bootstrap(
        &layout,
        "tdx",
        &[0u8; 4],
        &sample_address(),
        &[0u8; 32],
        Value::Object(serde_json::Map::new()),
    ));
    assert!(bootstrap_exists(&disk.present(&layout)));
}

#[test]
fn load_private_key_reports_what_is_wrong() {
    let err = load_private_key(Err(missing())).err().unwrap();
    assert_eq!(err.to_string(), "No such file or directory");
    let err = load_private_key(Ok(vec![0u8; 32])).err().unwrap();
    assert!(matches!(err, Error::InvalidPrivateKey));
}

#[test]
fn verify_disk_consistency_accepts_matching_pair() {
    let mut disk = Disk::default();
    let layout = layout();
    let (key, save) = generate_private_key(&layout);
    disk.perform(save);
    let address = address_from_private_key(&key);
    disk.perform(write_bootstrap(
        &layout,
        "tdx",
        &[0u8; 4],
        &address,
        &[0u8; 32],
        Value::Object(serde_json::Map::new()),
    ));

    let contents = disk.key(&layout);
    verify_disk_consistency(disk.record(&layout), contents)
        .expect("matching key+record should be consistent");
}

#[test]
fn verify_disk_consistency_rejects_mismatched_address() {
    let mut disk = Disk::default();
    let layout = layout();
    // One key, but a different address in the record.
    let (key, save) = generate_private_key(&layout);
    disk.perform(save);
    let other = Address([0x33; 20]);
    disk.perform(write_bootstrap(
        &layout,
        "tdx",
        &[0u8; 4],
        &other,
        &[0u8; 32],
        Value::Object(serde_json::Map::new()),
    ));

    let contents = disk.key(&layout);
    let err = verify_disk_consistency(disk.record(&layout), contents)
        .expect_err("mismatch should fail");
    assert!(
        err.to_string().contains("mismatch"),
        "unexpected error: {}",
        err.to_string()
    );
    let expected = format!(
        "bootstrap key/address mismatch: priv.key recovers to {} but bootstrap.json records {}",
        address_from_private_key(&key).to_string(),
        other.to_string()
    );
    assert_eq!(err.to_string(), expected);
}

#[test]
fn verify_disk_consistency_rejects_malformed_public_key() {
    let mut disk = Disk::default();
    let layout = layout();
    let (key, save) = generate_private_key(&layout);
    disk.perform(save);
    let address = address_from_private_key(&key);
    disk.perform(write_bootstrap(
        &layout,
        "tdx",
        &[0u8; 4],
        &address,
        &[0u8; 32],
        Value::Object(serde_json::Map::new()),
    ));

    let mut record = disk.record(&layout).unwrap();
    record.public_key = "not-an-address".to_string();

    let err = verify_disk_consistency(Ok(record), disk.key(&layout))
        .expect_err("bad address should fail");
    assert!(
        err.to_string().contains("not a valid Ethereum address"),
        "unexpected error: {}",
        err.to_string()
    );
    assert_eq!(err.cause().unwrap().to_string(), "invalid string length");
}

#[test]
fn verify_disk_consistency_needs_both_files() {
    let err = verify_disk_consistency(Err(missing()), Ok(vec![1u8; 32])).unwrap_err();
    assert_eq!(err.to_string(), "No such file or directory");
    let record = BootstrapData {
        issuer_type: "tdx".to_string(),
        public_key: sample_address().to_string(),
        quote: String::new(),
        nonce: String::new(),
        metadata: Value::Null,
    };
    let err = verify_disk_consistency(Ok(record), Ok(vec![1u8; 31])).unwrap_err();
    assert!(matches!(err, Error::InvalidPrivateKey));
}

#[test]
fn bootstrap_stores_a_consistent_pair_and_then_reuses_it() {
    let mut disk = Disk::default();
    let start = bootstrap(&disk.present(&layout()), layout());
    let stage = match start {
        BootstrapStart::Fresh(stage) => stage,
        BootstrapStart::Reuse => panic!("nothing to reuse"),
    };
    assert_eq!(stage.request().method, "metadata");
    let stage = stage
        .with_metadata(metadata_reply("azure", Value::Bool(true)))
        .ok()
        .unwrap();
    disk.perform(save_private_key(&stage.layout, &stage.private_key));
    let stage = stage.with_saved(Ok(())).unwrap();
    assert!(stage.quote.request.data.user_data.ends_with(&"00".repeat(12)));
    let nonce = hex::encode(&stage.quote.nonce);
    let address = stage.address;
    let reply = Ok(Response {
        data: Some(IssueResponseData { document: "c0de".to_string() }),
        error: None,
    });
    let mut stage = stage.with_quote(reply).unwrap();
    let write = std::mem::take(&mut stage.write);
    disk.perform(write);
    stage.with_written(Ok(())).unwrap();

    let present = disk.present(&layout());
    assert!(matches!(bootstrap(&present, layout()), BootstrapStart::Reuse));

    let contents = disk.key(&layout());
    let record = disk.record(&layout()).unwrap();
    assert_eq!(record.public_key, address.to_string());
    let response = load_bootstrap_response(Ok(BootstrapData {
        issuer_type: record.issuer_type.clone(),
        public_key: record.public_key.clone(),
        quote: record.quote.clone(),
        nonce: record.nonce.clone(),
        metadata: record.metadata.clone(),
    }))
    .unwrap();
    assert_eq!(response.issuer_type, "azure");
    assert_eq!(response.public_key, record.public_key);
    assert_eq!(response.quote, "c0de");
    assert_eq!(response.nonce, nonce);
    assert_eq!(response.metadata, Value::Bool(true));
    verify_disk_consistency(Ok(record), contents).unwrap();
}

#[test]
fn bootstrap_is_fresh_unless_both_files_are_there() {
    for (record, private_key) in [(false, false), (true, false), (false, true)] {
        let files = FilesPresent { record, private_key };
        assert!(matches!(bootstrap(&files, layout()), BootstrapStart::Fresh(_)));
    }
}

#[test]
fn bootstrap_failures_say_where_it_failed() {
    let fresh = || match bootstrap(&FilesPresent { record: false, private_key: false }, layout()) {
        BootstrapStart::Fresh(stage) => stage,
        BootstrapStart::Reuse => panic!("nothing to reuse"),
    };
    let err = fresh().with_metadata(Err(missing())).err().unwrap();
    assert_eq!(err.to_string(), "failed to fetch tdxs daemon metadata");
    let err = fresh()
        .with_metadata(metadata_reply("sev", Value::Null))
        .err()
        .unwrap();
    assert!(err.to_string().starts_with("Unsupported tdxs issuer 'sev'"));
    let keyed = || {
        fresh()
            .with_metadata(metadata_reply("tdx", Value::Null))
            .ok()
            .unwrap()
    };
    let err = keyed().with_saved(Err(missing())).unwrap_err();
    assert_eq!(err.to_string(), "failed to generate / persist bootstrap key");
    let quoting = || keyed().with_saved(Ok(())).unwrap();
    let err = quoting().with_quote(Err(missing())).unwrap_err();
    assert_eq!(err.to_string(), "failed to request TDX attestation quote");
    assert_eq!(err.cause().unwrap().to_string(), "No such file or directory");
    let reply = Ok(Response {
        data: Some(IssueResponseData { document: "00".to_string() }),
        error: None,
    });
    let err = quoting().with_quote(reply).unwrap().with_written(Err(missing())).unwrap_err();
    assert_eq!(err.to_string(), "failed to persist bootstrap record");
    let err = load_bootstrap_response(Err(missing())).unwrap_err();
    assert_eq!(err.to_string(), "failed to read bootstrap record");
}

#[test]
fn ping_reports_the_issuer() {
    let report = ping_attestation(metadata_reply("gcp", Value::Null)).unwrap();
    assert_eq!(report.issuer_type, "gcp");
    assert_eq!(report.metadata, Value::Null);
    let err = ping_attestation(Err(missing())).unwrap_err();
    assert_eq!(err.to_string(), "tdxs daemon ping failed");
}

#[test]
fn check_goes_through_daemon_node_and_disk() {
    let stage = check();
    assert_eq!(stage.request.method, "metadata");
    let stage = stage.with_metadata(metadata_reply("tdx", Value::Null)).unwrap();
    assert_eq!(stage.client.url(), LOCAL_L2_RPC_URL);
    assert_eq!(stage.client.url(), "http://127.0.0.1:8547");
    let stage = stage.with_height(Some(Ok(42))).unwrap();
    assert_eq!(stage.height, 42);
    let files = FilesPresent { record: true, private_key: true };
    let key = SecretKey::generate();
    let record = BootstrapData {
        issuer_type: "tdx".to_string(),
        public_key: address_from_private_key(&key).to_string(),
        quote: String::new(),
        nonce: String::new(),
        metadata: Value::Null,
    };
    let stage = stage.with_files(&files).expect("files to verify");
    stage.with_contents(Ok(record), Ok(key.secret_bytes().to_vec())).unwrap();
}

#[test]
fn check_without_a_record_has_no_files_to_verify() {
    for private_key in [false, true] {
        let stage = check().with_metadata(metadata_reply("tdx", Value::Null)).unwrap();
        let stage = stage.with_height(Some(Ok(0))).unwrap();
        let files = FilesPresent { record: false, private_key };
        assert!(stage.with_files(&files).is_none());
    }
}

#[test]
fn check_fails_on_a_record_without_its_key() {
    let stage = check().with_metadata(metadata_reply("tdx", Value::Null)).unwrap();
    let stage = stage.with_height(Some(Ok(0))).unwrap();
    let files = FilesPresent { record: true, private_key: false };
    let stage = stage.with_files(&files).expect("a record to verify");
    let record = BootstrapData {
        issuer_type: "tdx".to_string(),
        public_key: sample_address().to_string(),
        quote: String::new(),
        nonce: String::new(),
        metadata: Value::Null,
    };
    let err = stage.with_contents(Ok(record), Err(missing())).unwrap_err();
    assert_eq!(err.to_string(), "bootstrap disk consistency check failed");
    assert_eq!(err.cause().unwrap().to_string(), "No such file or directory");
}

#[test]
fn check_fails_where_a_dependency_does() {
    let err = check().with_metadata(Err(missing())).unwrap_err();
    assert_eq!(err.to_string(), "tdxs daemon check failed");
    assert_eq!(err.cause().unwrap().to_string(), "tdxs daemon ping failed");
    let l2 = || check().with_metadata(metadata_reply("tdx", Value::Null)).unwrap();
    let err = l2().with_height(None).unwrap_err();
    assert_eq!(err.to_string(), "local L2 RPC check failed");
    assert_eq!(err.cause().unwrap().to_string(), "local L2 eth_blockNumber timed out");
    let err = l2().with_height(Some(Err(missing()))).unwrap_err();
    assert_eq!(err.cause().unwrap().to_string(), "local L2 eth_blockNumber failed");
    let files = FilesPresent { record: true, private_key: true };
    let stage = l2().with_height(Some(Ok(1))).unwrap().with_files(&files).unwrap();
    let err = stage.with_contents(Err(missing()), Err(missing())).unwrap_err();
    assert_eq!(err.to_string(), "bootstrap disk consistency check failed");
}

#[test]
fn serving_begins_with_a_bootstrap() {
    let err = serve(Err(missing())).unwrap_err();
    assert_eq!(err.to_string(), "eager bootstrap before serving failed");
    let record = BootstrapData {
        issuer_type: "tdx".to_string(),
        public_key: String::new(),
        quote: String::new(),
        nonce: String::new(),
        metadata: Value::Null,
    };
    let client = serve(load_bootstrap_response(Ok(record))).unwrap();
    assert_eq!(client.url(), LOCAL_L2_RPC_URL);
}
