//! The files of the prover: the bootstrap record and the signing key.
//!
//! They stand under `$HOME/.config/reth-tdx/`, or under the same directories of the
//! home that the configuration names:
//!
//! ```text
//! reth-tdx/
//!   bootstrap.json      public attestation record
//!   secrets/
//!     priv.key          32-byte secp256k1 secret, mode 0600
//! ```
//!
//! What is to be done to the files is a list of [`FileOp`]s, which the program
//! performs in order up to the first one that fails.

use vstd::prelude::*;

use crate::error::Error;
use crate::hex_text;
use crate::primitives;
use crate::primitives::Address;
use crate::signature;
use crate::signature::SecretKey;

verus! {

/// The bootstrap record. It is written once, at the first start.
#[derive(Debug)]
pub struct BootstrapData {
    /// One of `tdx`, `azure`, `gcp`, `simulator`.
    pub issuer_type: String,
    /// Address of the prover.
    pub public_key: String,
    /// Hex-encoded attestation quote.
    pub quote: String,
    /// Hex-encoded nonce that the quote is bound to.
    pub nonce: String,
    /// Issuer-specific metadata.
    pub metadata: serde_json::Value,
}

/// What a bootstrap record says.
pub struct RecordView {
    /// Kind of the issuer.
    pub issuer_type: Seq<char>,
    /// Text of the address.
    pub public_key: Seq<char>,
    /// Text of the quote.
    pub quote: Seq<char>,
    /// Text of the nonce.
    pub nonce: Seq<char>,
    /// Metadata of the issuer.
    pub metadata: serde_json::Value,
}

impl View for BootstrapData {
    type V = RecordView;

    open spec fn view(&self) -> RecordView {
        RecordView {
            issuer_type: self.issuer_type@,
            public_key: self.public_key@,
            quote: self.quote@,
            nonce: self.nonce@,
            metadata: self.metadata,
        }
    }
}

/// A path, as the bytes that the system knows it by. They need not be text.
#[derive(Debug, PartialEq, Eq, PartialOrd, Ord)]
pub struct FilePath(pub Vec<u8>);

impl View for FilePath {
    type V = Seq<u8>;

    open spec fn view(&self) -> Seq<u8> {
        self.0@
    }
}

/// A relative path below a directory.
pub open spec fn joined(base: Seq<u8>, component: Seq<char>) -> Seq<u8> {
    if base.len() == 0 || base.last() == 47 {
        base + vstd::utf8::encode_utf8(component)
    } else {
        base.push(47) + vstd::utf8::encode_utf8(component)
    }
}

impl Clone for FilePath {
    fn clone(&self) -> (path: Self)
        ensures
            path@ == self@,
    {
        let mut bytes: Vec<u8> = Vec::new();
        bytes.extend_from_slice(self.0.as_slice());
        assert(bytes@ =~= self@);
        FilePath(bytes)
    }
}

impl FilePath {
    /// The path that a text writes.
    pub fn from_text(text: &str) -> (path: FilePath)
        ensures
            path@ == vstd::utf8::encode_utf8(text@),
    {
        let mut bytes: Vec<u8> = Vec::new();
        bytes.extend_from_slice(text.as_bytes());
        assert(bytes@ =~= vstd::utf8::encode_utf8(text@));
        FilePath(bytes)
    }

    /// A relative path below this directory.
    pub fn join(&self, component: &str) -> (path: FilePath)
        ensures
            path@ == joined(self@, component@),
    {
        let mut path = self.clone();
        let length = path.0.len();
        if length > 0 && path.0[length - 1] != 47 {
            path.0.push(47);
        }
        path.0.extend_from_slice(component.as_bytes());
        assert(path@ =~= joined(self@, component@));
        path
    }
}

/// One thing to do to the files.
#[derive(Debug)]
pub enum FileOp {
    /// Create a directory, and those above it, unless they are there.
    CreateDirs {
        /// The directory.
        path: FilePath,
    },
    /// Write a record as pretty-printed JSON in place of what the file holds.
    WriteRecord {
        /// The file.
        path: FilePath,
        /// The record.
        record: BootstrapData,
    },
    /// Write bytes in place of what the file holds. The file gets the mode before
    /// anything else: one that is not there yet is created with it, and one that is
    /// there is given it before it is emptied and written to.
    WriteSecret {
        /// The file.
        path: FilePath,
        /// Mode of the file.
        mode: u32,
        /// The bytes.
        bytes: [u8; 32],
    },
    /// Put a file in the place of another.
    Rename {
        /// The file.
        from: FilePath,
        /// The place.
        to: FilePath,
    },
}

/// What a [`FileOp`] says.
pub enum FileOpView {
    /// Create directories.
    CreateDirs {
        /// The directory.
        path: Seq<u8>,
    },
    /// Write a record.
    WriteRecord {
        /// The file.
        path: Seq<u8>,
        /// The record.
        record: RecordView,
    },
    /// Write bytes.
    WriteSecret {
        /// The file.
        path: Seq<u8>,
        /// Mode of the file.
        mode: u32,
        /// The bytes.
        bytes: Seq<u8>,
    },
    /// Rename.
    Rename {
        /// The file.
        from: Seq<u8>,
        /// The place.
        to: Seq<u8>,
    },
}

impl View for FileOp {
    type V = FileOpView;

    open spec fn view(&self) -> FileOpView {
        match *self {
            FileOp::CreateDirs { path } => FileOpView::CreateDirs { path: path@ },
            FileOp::WriteRecord { path, record } => FileOpView::WriteRecord {
                path: path@,
                record: record@,
            },
            FileOp::WriteSecret { path, mode, bytes } => FileOpView::WriteSecret {
                path: path@,
                mode,
                bytes: bytes@,
            },
            FileOp::Rename { from, to } => FileOpView::Rename { from: from@, to: to@ },
        }
    }
}

/// What a list of [`FileOp`]s says.
pub open spec fn plan(ops: Seq<FileOp>) -> Seq<FileOpView> {
    ops.map_values(|op: FileOp| op@)
}

/// The directory of the prover below a home directory.
pub open spec fn config_path(home: Seq<u8>) -> Seq<u8> {
    joined(joined(home, ".config"@), "reth-tdx"@)
}

/// Calls `dirs::home_dir`, and takes the path as its bytes. What comes back is up to
/// the environment, and nothing is stated of it.
#[verifier::external_body]
fn home_dir() -> (home: Option<FilePath>) {
    dirs::home_dir().map(|path| FilePath(path.into_os_string().into_encoded_bytes()))
}

/// The directory of the prover below the home that the configuration names, or else
/// below `home`.
pub fn config_dir_below(home_override: Option<&str>, home: Option<FilePath>) -> (dir: Result<
    FilePath,
    Error,
>)
    ensures
        match (home_override, home) {
            (Some(path), _) => dir is Ok && dir->Ok_0@ == config_path(
                vstd::utf8::encode_utf8(path@),
            ),
            (None, Some(path)) => dir is Ok && dir->Ok_0@ == config_path(path@),
            (None, None) => dir == Err::<FilePath, Error>(Error::NoHomeDirectory),
        },
{
    let home = match home_override {
        Some(path) => FilePath::from_text(path),
        None => match home {
            Some(path) => path,
            None => return Err(Error::NoHomeDirectory),
        },
    };
    Ok(home.join(".config").join("reth-tdx"))
}

/// The directory of the prover. The home that the configuration names goes before
/// the one of the environment.
pub fn config_dir(home_override: Option<&str>) -> (dir: Result<FilePath, Error>)
    ensures
        match home_override {
            Some(path) => dir is Ok && dir->Ok_0@ == config_path(vstd::utf8::encode_utf8(path@)),
            None => match dir {
                Ok(dir) => exists|home: Seq<u8>| dir@ == config_path(home),
                Err(error) => error == Error::NoHomeDirectory,
            },
        },
{
    let home = home_dir();
    let ghost found = home;
    let dir = config_dir_below(home_override, home);
    proof {
        if home_override is None && dir is Ok {
            assert(dir->Ok_0@ == config_path(found->0@));
        }
    }
    dir
}

/// Where the files are.
#[derive(Debug)]
pub struct Layout {
    /// Directory of the prover.
    pub dir: FilePath,
    /// Bootstrap record.
    pub record: FilePath,
    /// Bootstrap record while it is being written.
    pub record_tmp: FilePath,
    /// Directory of the key.
    pub secrets: FilePath,
    /// The key.
    pub private_key: FilePath,
}

impl Layout {
    /// Whether the files are at their places below the directory.
    pub open spec fn well_formed(self) -> bool {
        &&& self.record@ == joined(self.dir@, "bootstrap.json"@)
        &&& self.record_tmp@ == joined(self.dir@, "bootstrap.json.tmp"@)
        &&& self.secrets@ == joined(self.dir@, "secrets"@)
        &&& self.private_key@ == joined(self.secrets@, "priv.key"@)
    }

    /// The places of the files below `dir`.
    pub fn below(dir: FilePath) -> (layout: Layout)
        ensures
            layout.dir == dir,
            layout.well_formed(),
    {
        let record = dir.join("bootstrap.json");
        let record_tmp = dir.join("bootstrap.json.tmp");
        let secrets = dir.join("secrets");
        let private_key = secrets.join("priv.key");
        Layout { dir, record, record_tmp, secrets, private_key }
    }
}

/// Which of the files are there.
#[derive(Debug, Clone, Copy)]
pub struct FilesPresent {
    /// Whether the bootstrap record is.
    pub record: bool,
    /// Whether the key is.
    pub private_key: bool,
}

/// Whether the prover has been bootstrapped: both the record and the key are there.
pub fn bootstrap_exists(files: &FilesPresent) -> (exists_both: bool)
    ensures
        exists_both == (files.record && files.private_key),
{
    files.record && files.private_key
}

/// Whether the bootstrap record is there. The key need not be.
pub fn bootstrap_record_exists(files: &FilesPresent) -> (exists_record: bool)
    ensures
        exists_record == files.record,
{
    files.record
}

/// What to do to store a key: the file has mode 0600 before any of the key is in it.
pub open spec fn key_plan(layout: Layout, secret: Seq<u8>) -> Seq<FileOpView> {
    seq![
        FileOpView::CreateDirs { path: layout.dir@ },
        FileOpView::CreateDirs { path: layout.secrets@ },
        FileOpView::WriteSecret { path: layout.private_key@, mode: 0o600, bytes: secret },
    ]
}

/// What to do to store a key.
pub fn save_private_key(layout: &Layout, key: &SecretKey) -> (ops: Vec<FileOp>)
    ensures
        plan(ops@) == key_plan(*layout, key@),
{
    let ops = vec![
        FileOp::CreateDirs { path: layout.dir.clone() },
        FileOp::CreateDirs { path: layout.secrets.clone() },
        FileOp::WriteSecret {
            path: layout.private_key.clone(),
            mode: 0o600,
            bytes: key.secret_bytes(),
        },
    ];
    assert(plan(ops@) =~= key_plan(*layout, key@));
    ops
}

/// Makes a new key, and says what to do to store it.
pub fn generate_private_key(layout: &Layout) -> (made: (SecretKey, Vec<FileOp>))
    ensures
        signature::is_secret(made.0@),
        plan(made.1@) == key_plan(*layout, made.0@),
{
    let key = SecretKey::generate();
    let ops = save_private_key(layout, &key);
    (key, ops)
}

/// Reads the key from what came back of reading its file.
pub fn load_private_key(contents: Result<Vec<u8>, Error>) -> (key: Result<SecretKey, Error>)
    ensures
        match contents {
            Err(error) => key == Err::<SecretKey, Error>(error),
            Ok(bytes) => match key {
                Ok(key) => signature::is_secret(bytes@) && key@ == bytes@,
                Err(error) => !signature::is_secret(bytes@) && error == Error::InvalidPrivateKey,
            },
        },
{
    match contents {
        Ok(bytes) => SecretKey::from_slice(bytes.as_slice()),
        Err(error) => Err(error),
    }
}

/// The record of a bootstrap.
pub open spec fn bootstrap_record(
    issuer_type: Seq<char>,
    quote: Seq<u8>,
    address: Seq<u8>,
    nonce: Seq<u8>,
    metadata: serde_json::Value,
) -> RecordView {
    RecordView {
        issuer_type,
        public_key: primitives::checksum_text(address),
        quote: hex_text::hex_text(quote),
        nonce: hex_text::hex_text(nonce),
        metadata,
    }
}

/// What to do to store a record: it is written beside its place and then put there.
pub open spec fn record_plan(layout: Layout, record: RecordView) -> Seq<FileOpView> {
    seq![
        FileOpView::CreateDirs { path: layout.dir@ },
        FileOpView::WriteRecord { path: layout.record_tmp@, record },
        FileOpView::Rename { from: layout.record_tmp@, to: layout.record@ },
    ]
}

/// What to do to store the record of a bootstrap.
pub fn write_bootstrap(
    layout: &Layout,
    issuer_type: &str,
    quote: &[u8],
    public_key: &Address,
    nonce: &[u8],
    metadata: serde_json::Value,
) -> (ops: Vec<FileOp>)
    ensures
        plan(ops@) == record_plan(
            *layout,
            bootstrap_record(issuer_type@, quote@, public_key@, nonce@, metadata),
        ),
{
    let record = BootstrapData {
        issuer_type: issuer_type.to_owned(),
        public_key: public_key.to_string(),
        quote: hex_text::encode(quote),
        nonce: hex_text::encode(nonce),
        metadata,
    };
    let ops = vec![
        FileOp::CreateDirs { path: layout.dir.clone() },
        FileOp::WriteRecord { path: layout.record_tmp.clone(), record },
        FileOp::Rename { from: layout.record_tmp.clone(), to: layout.record.clone() },
    ];
    assert(plan(ops@) =~= record_plan(
        *layout,
        bootstrap_record(issuer_type@, quote@, public_key@, nonce@, metadata),
    ));
    ops
}

/// The kinds of issuer that the attestation daemon reports.
pub const SUPPORTED_ISSUER_TYPES: [&'static str; 4] = ["tdx", "azure", "gcp", "simulator"];

/// Whether the attestation daemon reports this kind of issuer.
pub open spec fn is_supported_issuer(issuer: Seq<char>) -> bool {
    issuer == "tdx"@ || issuer == "azure"@ || issuer == "gcp"@ || issuer == "simulator"@
}

/// Accepts the kinds of issuer that the attestation daemon reports.
pub fn validate_issuer(issuer: &str) -> (result: Result<(), Error>)
    ensures
        match result {
            Ok(_) => is_supported_issuer(issuer@),
            Err(error) => !is_supported_issuer(issuer@) && (error matches Error::UnsupportedIssuer {
                issuer: reported,
            } && reported@ == issuer@),
        },
{
    let reported = issuer.to_owned();
    let mut i: usize = 0;
    while i < 4
        invariant
            i <= 4,
            reported@ == issuer@,
            forall|j: int| 0 <= j < i ==> issuer@ != #[trigger] SUPPORTED_ISSUER_TYPES@[j]@,
        decreases 4 - i,
    {
        if reported == SUPPORTED_ISSUER_TYPES[i].to_owned() {
            assert(is_supported_issuer(issuer@));
            return Ok(());
        }
        i += 1;
    }
    assert(SUPPORTED_ISSUER_TYPES@[0]@ == "tdx"@);
    assert(SUPPORTED_ISSUER_TYPES@[1]@ == "azure"@);
    assert(SUPPORTED_ISSUER_TYPES@[2]@ == "gcp"@);
    assert(SUPPORTED_ISSUER_TYPES@[3]@ == "simulator"@);
    Err(Error::UnsupportedIssuer { issuer: reported })
}

proof fn lemma_ascii_pieces(first: Seq<char>, second: Seq<char>)
    requires
        vstd::utf8::is_ascii_chars(first),
        vstd::utf8::is_ascii_chars(second),
    ensures
        vstd::utf8::encode_utf8(first + second) == vstd::utf8::encode_utf8(first)
            + vstd::utf8::encode_utf8(second),
{
    let whole = first + second;
    vstd::utf8::is_ascii_chars_encode_utf8(first);
    vstd::utf8::is_ascii_chars_encode_utf8(second);
    assert forall|i: int| 0 <= i < whole.len() implies '\0' <= #[trigger] whole[i]
        <= '\u{7f}' by {
        if i < first.len() {
            assert(whole[i] == first[i]);
        } else {
            assert(whole[i] == second[i - first.len()]);
        }
    }
    vstd::utf8::is_ascii_chars_encode_utf8(whole);
    assert forall|i: int| 0 <= i < whole.len() implies vstd::utf8::encode_utf8(whole)[i] == (
    vstd::utf8::encode_utf8(first) + vstd::utf8::encode_utf8(second))[i] by {
        if i < first.len() {
            assert(whole[i] == first[i]);
        } else {
            assert(whole[i] == second[i - first.len()]);
        }
    }
    assert(vstd::utf8::encode_utf8(whole) =~= vstd::utf8::encode_utf8(first)
        + vstd::utf8::encode_utf8(second));
}

/// A path is its bytes.
pub proof fn path_is_its_bytes(path: FilePath)
    ensures
        path@ == path.0@,
{
}

/// A path below a directory is the directory, one slash unless the directory ends in
/// one or is empty, and the component.
pub proof fn joined_has_one_slash(base: Seq<u8>, component: Seq<char>)
    ensures
        base.len() > 0 && base.last() != 47 ==> joined(base, component) == base + seq![47u8]
            + vstd::utf8::encode_utf8(component),
        base.len() == 0 || base.last() == 47 ==> joined(base, component) == base
            + vstd::utf8::encode_utf8(component),
{
    if base.len() > 0 && base.last() != 47 {
        assert(joined(base, component) =~= base + seq![47u8] + vstd::utf8::encode_utf8(component));
    }
}

/// The directory of the prover is `.config/reth-tdx` below the home.
pub proof fn config_is_below_the_home(home: Seq<u8>)
    ensures
        home.len() > 0 && home.last() != 47 ==> config_path(home) == home
            + vstd::utf8::encode_utf8("/.config/reth-tdx"@),
        home.len() == 0 || home.last() == 47 ==> config_path(home) == home
            + vstd::utf8::encode_utf8(".config/reth-tdx"@),
{
    reveal_strlit(".config");
    reveal_strlit("reth-tdx");
    reveal_strlit("/reth-tdx");
    reveal_strlit("/.config");
    reveal_strlit("/");
    reveal_strlit("/.config/reth-tdx");
    reveal_strlit(".config/reth-tdx");
    vstd::utf8::is_ascii_chars_encode_utf8(".config"@);
    vstd::utf8::is_ascii_chars_encode_utf8("/"@);
    lemma_ascii_pieces("/"@, "reth-tdx"@);
    lemma_ascii_pieces("/"@, ".config"@);
    assert("/"@ + "reth-tdx"@ =~= "/reth-tdx"@);
    assert("/"@ + ".config"@ =~= "/.config"@);
    lemma_ascii_pieces(".config"@, "/reth-tdx"@);
    lemma_ascii_pieces("/.config"@, "/reth-tdx"@);
    assert(".config"@ + "/reth-tdx"@ =~= ".config/reth-tdx"@);
    assert("/.config"@ + "/reth-tdx"@ =~= "/.config/reth-tdx"@);
    assert(vstd::utf8::encode_utf8("/"@) =~= seq![47u8]);
    let below = joined(home, ".config"@);
    assert(vstd::utf8::encode_utf8(".config"@).last() == 'g' as u8);
    assert(below.last() == 'g' as u8);
    if home.len() > 0 && home.last() != 47 {
        assert(config_path(home) =~= home + vstd::utf8::encode_utf8("/.config/reth-tdx"@));
    } else {
        assert(config_path(home) =~= home + vstd::utf8::encode_utf8(".config/reth-tdx"@));
    }
}

/// Below a directory the record is `bootstrap.json`, it is written first to
/// `bootstrap.json.tmp`, and the key is `secrets/priv.key`.
pub proof fn files_have_their_names(layout: Layout)
    requires
        layout.well_formed(),
        layout.dir@.len() > 0,
        layout.dir@.last() != 47,
    ensures
        layout.record@ == layout.dir@ + vstd::utf8::encode_utf8("/bootstrap.json"@),
        layout.record_tmp@ == layout.dir@ + vstd::utf8::encode_utf8("/bootstrap.json.tmp"@),
        layout.secrets@ == layout.dir@ + vstd::utf8::encode_utf8("/secrets"@),
        layout.private_key@ == layout.dir@ + vstd::utf8::encode_utf8("/secrets/priv.key"@),
{
    reveal_strlit("/");
    reveal_strlit("bootstrap.json");
    reveal_strlit("bootstrap.json.tmp");
    reveal_strlit("secrets");
    reveal_strlit("priv.key");
    reveal_strlit("/bootstrap.json");
    reveal_strlit("/bootstrap.json.tmp");
    reveal_strlit("/secrets");
    reveal_strlit("/priv.key");
    reveal_strlit("/secrets/priv.key");
    vstd::utf8::is_ascii_chars_encode_utf8("/"@);
    vstd::utf8::is_ascii_chars_encode_utf8("secrets"@);
    assert(vstd::utf8::encode_utf8("/"@) =~= seq![47u8]);
    lemma_ascii_pieces("/"@, "bootstrap.json"@);
    lemma_ascii_pieces("/"@, "bootstrap.json.tmp"@);
    lemma_ascii_pieces("/"@, "secrets"@);
    lemma_ascii_pieces("/"@, "priv.key"@);
    assert("/"@ + "bootstrap.json"@ =~= "/bootstrap.json"@);
    assert("/"@ + "bootstrap.json.tmp"@ =~= "/bootstrap.json.tmp"@);
    assert("/"@ + "secrets"@ =~= "/secrets"@);
    assert("/"@ + "priv.key"@ =~= "/priv.key"@);
    lemma_ascii_pieces("/secrets"@, "/priv.key"@);
    assert("/secrets"@ + "/priv.key"@ =~= "/secrets/priv.key"@);
    assert(vstd::utf8::encode_utf8("secrets"@).last() == 's' as u8);
    assert(layout.secrets@.last() == 's' as u8);
    assert(layout.record@ =~= layout.dir@ + vstd::utf8::encode_utf8("/bootstrap.json"@));
    assert(layout.record_tmp@ =~= layout.dir@ + vstd::utf8::encode_utf8("/bootstrap.json.tmp"@));
    assert(layout.secrets@ =~= layout.dir@ + vstd::utf8::encode_utf8("/secrets"@));
    assert(layout.private_key@ =~= layout.dir@ + vstd::utf8::encode_utf8("/secrets/priv.key"@));
}

/// Operations that are planned to store a key make the two directories and then write
/// the bytes of the secret, in their order, to the place of the key with mode 0600.
pub proof fn key_plan_writes_the_secret(ops: Seq<FileOp>, layout: Layout, secret: Seq<u8>)
    requires
        plan(ops) == key_plan(layout, secret),
    ensures
        ops.len() == 3,
        ops[0] matches FileOp::CreateDirs { path } && path.0@ == layout.dir.0@,
        ops[1] matches FileOp::CreateDirs { path } && path.0@ == layout.secrets.0@,
        ops[2] matches FileOp::WriteSecret { path, mode, bytes } && path.0@
            == layout.private_key.0@ && mode == 0o600 && bytes@ == secret,
{
    assert(plan(ops).len() == ops.len());
    assert(plan(ops)[0] == ops[0]@);
    assert(plan(ops)[1] == ops[1]@);
    assert(plan(ops)[2] == ops[2]@);
}

/// Operations that are planned to store a record make the directory, write the record
/// beside its place, field by field as it says, and then put it there.
pub proof fn record_plan_writes_the_record(ops: Seq<FileOp>, layout: Layout, record: RecordView)
    requires
        plan(ops) == record_plan(layout, record),
    ensures
        ops.len() == 3,
        ops[0] matches FileOp::CreateDirs { path } && path.0@ == layout.dir.0@,
        ops[1] matches FileOp::WriteRecord { path, record: written } && path.0@
            == layout.record_tmp.0@ && written.issuer_type@ == record.issuer_type
            && written.public_key@ == record.public_key && written.quote@ == record.quote
            && written.nonce@ == record.nonce && written.metadata == record.metadata,
        ops[2] matches FileOp::Rename { from, to } && from.0@ == layout.record_tmp.0@ && to.0@
            == layout.record.0@,
{
    assert(plan(ops).len() == ops.len());
    assert(plan(ops)[0] == ops[0]@);
    assert(plan(ops)[1] == ops[1]@);
    assert(plan(ops)[2] == ops[2]@);
}

/// The texts of a bootstrap record are read back as the address, the quote and the
/// nonce that it is made of; the issuer and its metadata stand in it as they are.
pub proof fn record_reads_back(
    issuer_type: Seq<char>,
    quote: Seq<u8>,
    address: Address,
    nonce: Seq<u8>,
    metadata: serde_json::Value,
)
    ensures
        ({
            let record = bootstrap_record(issuer_type, quote, address@, nonce, metadata);
            &&& record.issuer_type == issuer_type
            &&& primitives::address_from_text(vstd::utf8::encode_utf8(record.public_key)) == Ok::<
                Seq<u8>,
                hex_text::HexError,
            >(address@)
            &&& record.public_key == primitives::checksum_text(address@)
            &&& hex_text::hex_bytes(vstd::utf8::encode_utf8(record.quote)) == Ok::<
                Seq<u8>,
                hex_text::HexError,
            >(quote)
            &&& record.quote == hex_text::hex_text(quote)
            &&& hex_text::hex_bytes(vstd::utf8::encode_utf8(record.nonce)) == Ok::<
                Seq<u8>,
                hex_text::HexError,
            >(nonce)
            &&& record.nonce == hex_text::hex_text(nonce)
            &&& record.metadata == metadata
        }),
{
    primitives::address_text_reads_back(address);
    hex_text::decode_reads_what_encode_writes(quote);
    hex_text::decode_reads_what_encode_writes(nonce);
}

/// Four issuers are supported, and no other text is the name of one.
pub proof fn four_issuers_are_supported(issuer: Seq<char>)
    ensures
        is_supported_issuer("tdx"@),
        is_supported_issuer("azure"@),
        is_supported_issuer("gcp"@),
        is_supported_issuer("simulator"@),
        issuer != "tdx"@ && issuer != "azure"@ && issuer != "gcp"@ && issuer != "simulator"@
            ==> !is_supported_issuer(issuer),
{
}

} // verus!
