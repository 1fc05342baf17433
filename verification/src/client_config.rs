//! Client configuration sent on request: the menu messages, the data
//! configuration and the talk file choice.
use vstd::prelude::*;
use vstd::string::StringExecFns;
use crate::attrs::{AttrMap, lookup_last_text, pair_texts};
use crate::models::util::{LOCAL_HTTP_PORT, TELEMETRY_DISA, TELEMETRY_PORT};
use crate::text::{decimal, decimal_text, str_eq};
use crate::models::stats::starts_with;
use crate::report::{split_chars, split_fields, str_views, lemma_split_nonempty};
use vstd::string::StrSliceExecFns;
use crate::signing::{split_first, split_once_char, lemma_split_first};

verus! {

/// Known types of messages.
#[derive(Clone, Copy, PartialEq, Eq, Structural)]
pub enum MessageType {
    /// Displayed on the main menu in the next tab on the terminal
    MenuTerminal,
    /// Displayed on the main menu in the scrolling text
    MenuScrolling,
    /// Large multiplayer full-screen notification with store button
    Multiplayer,
    /// Other unknown value
    Other(u8),
}

impl MessageType {
    /// The code of this message type.
    pub open spec fn code(self) -> u8 {
        match self {
            MessageType::MenuTerminal => 0x0,
            MessageType::MenuScrolling => 0x3,
            MessageType::Multiplayer => 0x8,
            MessageType::Other(value) => value,
        }
    }

    /// The code of this message type.
    pub fn value(&self) -> (r: u8)
        ensures
            r == self.code(),
    {
        match self {
            MessageType::MenuTerminal => 0x0,
            MessageType::MenuScrolling => 0x3,
            MessageType::Multiplayer => 0x8,
            MessageType::Other(value) => *value,
        }
    }
}

/// A message shown to players.
pub struct Message {
    /// The end date of this message
    pub end_date: Option<String>,
    /// Path to the message image (the game uses a default image when
    /// there is none)
    pub image: Option<String>,
    /// The title of the message
    pub title: Option<String>,
    /// The message text content
    pub message: String,
    /// The message priority
    pub priority: u32,
    /// Identifier of this message, so that a dismissed message is not
    /// shown to the same user again
    pub tracking_id: Option<u32>,
    /// The type of message
    pub ty: MessageType,
}

/// Languages that get their own copy of a message's text and title.
pub open spec fn message_langs() -> Seq<Seq<char>> {
    seq!["de"@, "es"@, "fr"@, "it"@, "ja"@, "pl"@, "ru"@]
}

/// Languages that get their own copy of a message's text and title.
fn message_lang_list() -> (r: Vec<&'static str>)
    ensures
        r@.len() == 7,
        forall|i: int| 0 <= i < 7 ==> #[trigger] r@[i]@ == message_langs()[i],
{
    vec!["de", "es", "fr", "it", "ja", "pl", "ru"]
}

/// `(key + lang, value)` for every language, in order.
pub open spec fn per_language(key: Seq<char>, value: Seq<char>) -> Seq<(Seq<char>, Seq<char>)> {
    Seq::new(7, |i: int| (key + message_langs()[i], value))
}

/// The text of an optional string.
pub open spec fn opt_text(o: Option<String>) -> Option<Seq<char>> {
    match o {
        Some(s) => Some(s@),
        None => None,
    }
}

/// The configuration entries of message number `index` with the given
/// parts, in the order they are set; every key starts with
/// `MSG_<index>_`.
pub open spec fn message_entries_of(
    end_date: Option<Seq<char>>,
    image: Option<Seq<char>>,
    title: Option<Seq<char>>,
    message: Seq<char>,
    priority: u32,
    tracking_id: Option<u32>,
    ty: MessageType,
    index: usize,
) -> Seq<(Seq<char>, Seq<char>)> {
    let p = "MSG_"@ + decimal_text(index as nat) + "_"@;
    let s = match end_date {
        Some(d) => seq![(p + "endDate"@, d)],
        None => Seq::empty(),
    };
    let s = match image {
        Some(i) => s.push((p + "image"@, i)),
        None => s,
    };
    let s = s.push((p + "message"@, message)) + per_language(p + "message_"@, message);
    let s = s.push((p + "priority"@, decimal_text(priority as nat)));
    let s = match title {
        Some(t) => s.push((p + "title"@, t)) + per_language(p + "title_"@, t),
        None => s,
    };
    let s = match tracking_id {
        Some(t) => s.push((p + "trackingId"@, decimal_text(t as nat))),
        None => s,
    };
    s.push((p + "type"@, decimal_text(ty.code() as nat)))
}

/// The configuration entries of the message `m` as number `index`.
pub open spec fn message_entries(m: Message, index: usize) -> Seq<(Seq<char>, Seq<char>)> {
    message_entries_of(
        opt_text(m.end_date),
        opt_text(m.image),
        opt_text(m.title),
        m.message@,
        m.priority,
        m.tracking_id,
        m.ty,
        index,
    )
}

/// Text of the introduction message for the server `version`.
pub open spec fn intro_text(version: Seq<char>) -> Seq<char> {
    "You are connected to Pocket Relay <font color='#FFFF66'>(v"@ + version + ")</font>"@
}

/// `a` followed by `b`.
fn concat(a: &str, b: &str) -> (r: String)
    ensures
        r@ == a@ + b@,
{
    let mut s = a.to_owned();
    s.append(b);
    s
}

/// Appends `(key + lang, value)` for every language.
fn push_per_language(out: &mut Vec<(String, String)>, key: &str, value: &str)
    ensures
        pair_texts(final(out)@) == pair_texts(old(out)@) + per_language(key@, value@),
{
    let langs = message_lang_list();
    let mut i: usize = 0;
    while i < 7
        invariant
            langs@.len() == 7,
            forall|j: int| 0 <= j < 7 ==> #[trigger] langs@[j]@ == message_langs()[j],
            0 <= i <= 7,
            pair_texts(out@) == pair_texts(old(out)@) + per_language(key@, value@).take(i as int),
        decreases 7 - i,
    {
        let ghost prev = out@;
        out.push((concat(key, langs[i]), value.to_owned()));
        proof {
            assert(pair_texts(out@) =~= pair_texts(prev).push((key@ + langs@[i as int]@, value@)));
            assert(per_language(key@, value@).take(i + 1) =~= per_language(key@, value@).take(i as int).push(
                (key@ + message_langs()[i as int], value@),
            ));
        }
        i = i + 1;
    }
    proof {
        assert(per_language(key@, value@).take(7) =~= per_language(key@, value@));
    }
}

/// Appends one pair.
fn push_pair(out: &mut Vec<(String, String)>, key: String, value: String)
    ensures
        pair_texts(final(out)@) == pair_texts(old(out)@).push((key@, value@)),
{
    let ghost prev = out@;
    out.push((key, value));
    assert(pair_texts(out@) =~= pair_texts(prev).push((key@, value@)));
}

impl Message {
    /// The configuration entries of this message as number `index`.
    pub fn entries(&self, index: usize) -> (r: Vec<(String, String)>)
        ensures
            pair_texts(r@) == message_entries(*self, index),
    {
        let mut prefix = concat("MSG_", decimal(index as u64).as_str());
        prefix.append("_");
        let p = prefix.as_str();
        let mut out: Vec<(String, String)> = Vec::new();
        proof {
            assert(pair_texts(out@) =~= Seq::empty());
        }
        match &self.end_date {
            Some(d) => push_pair(&mut out, concat(p, "endDate"), d.clone()),
            None => {},
        }
        match &self.image {
            Some(i) => push_pair(&mut out, concat(p, "image"), i.clone()),
            None => {},
        }
        push_pair(&mut out, concat(p, "message"), self.message.clone());
        push_per_language(&mut out, concat(p, "message_").as_str(), self.message.as_str());
        push_pair(&mut out, concat(p, "priority"), decimal(self.priority as u64));
        match &self.title {
            Some(t) => {
                push_pair(&mut out, concat(p, "title"), t.clone());
                push_per_language(&mut out, concat(p, "title_").as_str(), t.as_str());
            },
            None => {},
        }
        match self.tracking_id {
            Some(t) => push_pair(&mut out, concat(p, "trackingId"), decimal(t as u64)),
            None => {},
        }
        push_pair(&mut out, concat(p, "type"), decimal(self.ty.value() as u64));
        proof {
            assert(pair_texts(out@) =~= message_entries(*self, index));
        }
        out
    }

    /// Appends this message to `map` as message number `index`.
    pub fn append(self, index: usize, map: &mut AttrMap)
        ensures
            forall|k: Seq<char>| #[trigger] final(map).lookup(k) == (match lookup_last_text(message_entries(self, index), k) {
                Some(v) => Some(v),
                None => old(map).lookup(k),
            }),
    {
        let entries = self.entries(index);
        map.insert_all(entries);
    }
}

/// The messages shown to players: one introduction to the server, whose
/// text names the server `version`.
pub fn messages(version: &str) -> (r: AttrMap)
    ensures
        forall|k: Seq<char>| #[trigger] r.lookup(k) == lookup_last_text(
            message_entries_of(None, None, Some("Pocket Relay"@), intro_text(version@), 1, Some(1), MessageType::MenuTerminal, 1),
            k,
        ),
{
    let mut text = concat("You are connected to Pocket Relay <font color='#FFFF66'>(v", version);
    text.append(")</font>");
    let intro = Message {
        end_date: None,
        image: None,
        title: Some("Pocket Relay".to_owned()),
        message: text,
        priority: 1,
        tracking_id: Some(1),
        ty: MessageType::MenuTerminal,
    };
    let mut config = AttrMap::new();
    intro.append(1, &mut config);
    config
}

/// The data configuration entries: the Galaxy at War and image server
/// addresses (on `gosredirector.ea.com`, which the client redirects to this
/// server and whose requests it proxies, at the local HTTP port), image limits, job throttles,
/// protocol versions and telemetry settings.
pub open spec fn data_config_entries() -> Seq<(Seq<char>, Seq<char>)> {
    let prefix = "http://gosredirector.ea.com:"@ + decimal_text(LOCAL_HTTP_PORT as nat);
    seq![
        ("GAW_SERVER_BASE_URL"@, prefix + "/"@),
        ("IMG_MNGR_BASE_URL"@, prefix + "/content/"@),
        ("IMG_MNGR_MAX_BYTES"@, "1048576"@),
        ("IMG_MNGR_MAX_IMAGES"@, "5"@),
        ("JOB_THROTTLE_0"@, "10000"@),
        ("JOB_THROTTLE_1"@, "5000"@),
        ("JOB_THROTTLE_2"@, "1000"@),
        ("MATCH_MAKING_RULES_VERSION"@, "5"@),
        ("MULTIPLAYER_PROTOCOL_VERSION"@, "3"@),
        ("TEL_DISABLE"@, TELEMETRY_DISA@),
        ("TEL_DOMAIN"@, "pc/masseffect-3-pc-anon"@),
        ("TEL_FILTER"@, "-UION/****"@),
        ("TEL_PORT"@, decimal_text(TELEMETRY_PORT as nat)),
        ("TEL_SEND_DELAY"@, "15000"@),
        ("TEL_SEND_PCT"@, "75"@),
        ("TEL_SERVER"@, "127.0.0.1"@)
    ]
}

/// The data configuration (the `ME3_DATA` client configuration).
pub fn data_config() -> (r: AttrMap)
    ensures
        forall|k: Seq<char>| #[trigger] r.lookup(k) == lookup_last_text(data_config_entries(), k),
{
    let prefix = concat("http://gosredirector.ea.com:", decimal(LOCAL_HTTP_PORT as u64).as_str());
    let p = prefix.as_str();
    let mut out: Vec<(String, String)> = Vec::new();
    proof {
        assert(pair_texts(out@) =~= Seq::empty());
    }
    push_pair(&mut out, "GAW_SERVER_BASE_URL".to_owned(), concat(p, "/"));
    push_pair(&mut out, "IMG_MNGR_BASE_URL".to_owned(), concat(p, "/content/"));
    push_pair(&mut out, "IMG_MNGR_MAX_BYTES".to_owned(), "1048576".to_owned());
    push_pair(&mut out, "IMG_MNGR_MAX_IMAGES".to_owned(), "5".to_owned());
    push_pair(&mut out, "JOB_THROTTLE_0".to_owned(), "10000".to_owned());
    push_pair(&mut out, "JOB_THROTTLE_1".to_owned(), "5000".to_owned());
    push_pair(&mut out, "JOB_THROTTLE_2".to_owned(), "1000".to_owned());
    push_pair(&mut out, "MATCH_MAKING_RULES_VERSION".to_owned(), "5".to_owned());
    push_pair(&mut out, "MULTIPLAYER_PROTOCOL_VERSION".to_owned(), "3".to_owned());
    push_pair(&mut out, "TEL_DISABLE".to_owned(), TELEMETRY_DISA.to_owned());
    push_pair(&mut out, "TEL_DOMAIN".to_owned(), "pc/masseffect-3-pc-anon".to_owned());
    push_pair(&mut out, "TEL_FILTER".to_owned(), "-UION/****".to_owned());
    push_pair(&mut out, "TEL_PORT".to_owned(), decimal(TELEMETRY_PORT as u64));
    push_pair(&mut out, "TEL_SEND_DELAY".to_owned(), "15000".to_owned());
    push_pair(&mut out, "TEL_SEND_PCT".to_owned(), "75".to_owned());
    push_pair(&mut out, "TEL_SERVER".to_owned(), "127.0.0.1".to_owned());
    proof {
        assert(pair_texts(out@) =~= data_config_entries());
    }
    let mut config = AttrMap::new();
    config.insert_all(out);
    config
}

/// A file embedded in the server.
#[derive(Clone, Copy)]
pub struct EmbeddedFile {
    pub name: &'static str,
    pub data: &'static [u8],
}

/// Index of the first file named `name`.
pub open spec fn find_file(files: Seq<EmbeddedFile>, name: Seq<char>) -> Option<int>
    decreases files.len(),
{
    if files.len() == 0 {
        None
    } else if files.last().name@ == name && find_file(files.drop_last(), name) is None {
        Some(files.len() - 1)
    } else {
        find_file(files.drop_last(), name)
    }
}

/// Name of the talk file of the language `lang`.
pub open spec fn talk_file_name(lang: Seq<char>) -> Seq<char> {
    lang + ".tlk"@
}

/// Finds the first file named `name`.
fn find_embedded(files: &[EmbeddedFile], name: &str) -> (r: Option<usize>)
    ensures
        match r {
            Some(i) => find_file(files@, name@) == Some(i as int) && i < files@.len(),
            None => find_file(files@, name@) is None,
        },
{
    let n = files.len();
    let mut i: usize = 0;
    while i < n
        invariant
            n == files@.len(),
            0 <= i <= n,
            find_file(files@.take(i as int), name@) is None,
        decreases n - i,
    {
        proof {
            assert(files@.take(i + 1).drop_last() =~= files@.take(i as int));
        }
        if str_eq(files[i].name, name) {
            proof {
                lemma_find_file_prefix(files@, i as int + 1, name@);
                lemma_find_file_bounds(files@, name@);
            }
            return Some(i);
        }
        i = i + 1;
    }
    proof {
        assert(files@.take(n as int) =~= files@);
    }
    None
}

/// A found file is one of the files, with the name looked for.
proof fn lemma_find_file_bounds(files: Seq<EmbeddedFile>, name: Seq<char>)
    requires
        find_file(files, name) is Some,
    ensures
        0 <= find_file(files, name)->0 < files.len(),
        files[find_file(files, name)->0].name@ == name,
    decreases files.len(),
{
    if files.len() > 0 && find_file(files.drop_last(), name) is Some {
        lemma_find_file_bounds(files.drop_last(), name);
    }
}

/// A file found among the first `k` files is the one found among all.
proof fn lemma_find_file_prefix(files: Seq<EmbeddedFile>, k: int, name: Seq<char>)
    requires
        0 <= k <= files.len(),
        find_file(files.take(k), name) is Some,
    ensures
        find_file(files, name) == find_file(files.take(k), name),
    decreases files.len(),
{
    if k < files.len() {
        assert(files.drop_last().take(k) =~= files.take(k));
        lemma_find_file_prefix(files.drop_last(), k, name);
    } else {
        assert(files.take(k) =~= files);
    }
}

/// The embedded talk file of the language `lang`, or the default talk
/// file (`default.tlk`) when there is none for `lang`.
pub fn fallback_talk_file(lang: &str, files: &[EmbeddedFile]) -> (r: &'static [u8])
    requires
        find_file(files@, "default.tlk"@) is Some,
    ensures
        r@ == (match find_file(files@, talk_file_name(lang@)) {
            Some(i) => files@[i].data@,
            None => files@[find_file(files@, "default.tlk"@)->0].data@,
        }),
{
    let name = concat(lang, ".tlk");
    match find_embedded(files, name.as_str()) {
        Some(i) => files[i].data,
        None => {
            let d = find_embedded(files, "default.tlk");
            match d {
                Some(i) => files[i].data,
                None => files[0].data,
            }
        },
    }
}

/// Which client configuration a fetch request asks for.
#[derive(Clone, Copy, PartialEq, Eq, Structural)]
pub enum ConfigSource {
    /// `ME3_DATA`: the data configuration
    Data,
    /// `ME3_MSG`: the menu messages
    Messages,
    /// `ME3_ENT`: the entitlements file
    Entitlements,
    /// `ME3_DIME`: the shop configuration
    Dime,
    /// `ME3_BINI_VERSION`: version and name of the server coalesced
    BiniVersion,
    /// `ME3_BINI_PC_COMPRESSED`: the compressed server coalesced
    BiniCompressed,
    /// `ME3_LIVE_TLK_PC_<lang>`: the talk file of a language
    TalkFile,
    /// Anything else: an empty configuration
    Unknown,
}

/// Prefix of talk file configuration IDs.
pub const TALK_FILE_PREFIX: &'static str = "ME3_LIVE_TLK_PC_";

/// The configuration that the ID `id` asks for.
pub open spec fn config_source_of(id: Seq<char>) -> ConfigSource {
    if id == "ME3_DATA"@ {
        ConfigSource::Data
    } else if id == "ME3_MSG"@ {
        ConfigSource::Messages
    } else if id == "ME3_ENT"@ {
        ConfigSource::Entitlements
    } else if id == "ME3_DIME"@ {
        ConfigSource::Dime
    } else if id == "ME3_BINI_VERSION"@ {
        ConfigSource::BiniVersion
    } else if id == "ME3_BINI_PC_COMPRESSED"@ {
        ConfigSource::BiniCompressed
    } else if TALK_FILE_PREFIX@.len() <= id.len() && id.subrange(0, TALK_FILE_PREFIX@.len() as int)
        == TALK_FILE_PREFIX@ {
        ConfigSource::TalkFile
    } else {
        ConfigSource::Unknown
    }
}

/// The configuration that the ID `id` asks for, with the language of a
/// talk file request (the text after the prefix).
pub fn config_source(id: &str) -> (r: (ConfigSource, Option<&str>))
    ensures
        r.0 == config_source_of(id@),
        r.0 == ConfigSource::TalkFile <==> r.1 is Some,
        r.1 matches Some(lang) ==> lang@ == id@.skip(TALK_FILE_PREFIX@.len() as int),
{
    if str_eq(id, "ME3_DATA") {
        (ConfigSource::Data, None)
    } else if str_eq(id, "ME3_MSG") {
        (ConfigSource::Messages, None)
    } else if str_eq(id, "ME3_ENT") {
        (ConfigSource::Entitlements, None)
    } else if str_eq(id, "ME3_DIME") {
        (ConfigSource::Dime, None)
    } else if str_eq(id, "ME3_BINI_VERSION") {
        (ConfigSource::BiniVersion, None)
    } else if str_eq(id, "ME3_BINI_PC_COMPRESSED") {
        (ConfigSource::BiniCompressed, None)
    } else if starts_with(id, TALK_FILE_PREFIX) {
        proof {
            reveal_strlit("ME3_LIVE_TLK_PC_");
        }
        let n = id.unicode_len();
        (ConfigSource::TalkFile, Some(id.substring_char(16, n)))
    } else {
        (ConfigSource::Unknown, None)
    }
}

/// The coalesced version configuration entries.
pub open spec fn bini_version_entries() -> Seq<(Seq<char>, Seq<char>)> {
    seq![("SECTION"@, "BINI_PC_COMPRESSED"@), ("VERSION"@, "40128"@)]
}

/// The coalesced version configuration.
pub fn bini_version() -> (r: AttrMap)
    ensures
        forall|k: Seq<char>| #[trigger] r.lookup(k) == lookup_last_text(bini_version_entries(), k),
{
    let mut out: Vec<(String, String)> = Vec::new();
    proof {
        assert(pair_texts(out@) =~= Seq::empty());
    }
    push_pair(&mut out, "SECTION".to_owned(), "BINI_PC_COMPRESSED".to_owned());
    push_pair(&mut out, "VERSION".to_owned(), "40128".to_owned());
    proof {
        assert(pair_texts(out@) =~= bini_version_entries());
    }
    let mut config = AttrMap::new();
    config.insert_all(out);
    config
}

/// The shop configuration with the content `dime`.
pub fn dime_config(dime: &str) -> (r: AttrMap)
    ensures
        forall|k: Seq<char>| #[trigger] r.lookup(k) == (if k == "Config"@ { Some(dime@) } else { None::<Seq<char>> }),
{
    let mut config = AttrMap::new();
    config.insert("Config".to_owned(), dime.to_owned());
    config
}

/// The lines of `text` (as `str::lines` gives them): split at line feeds,
/// a carriage return before a line feed dropped, and no empty last line
/// after a final line feed.
pub open spec fn text_lines(text: Seq<char>) -> Seq<Seq<char>> {
    let fields = split_chars(text, '\n');
    let body = if fields.last().len() == 0 { fields.drop_last() } else { fields };
    Seq::new(
        body.len(),
        |i: int| if i < fields.len() - 1 && body[i].len() > 0 && body[i].last() == '\r' {
            body[i].drop_last()
        } else {
            body[i]
        },
    )
}

/// The key/value pairs of the lines of `text` that hold an `=`: the text
/// before the first `=` and the text after it.
pub open spec fn key_value_lines(text: Seq<char>) -> Seq<(Seq<char>, Seq<char>)>
    decreases text_lines(text).len(),
{
    key_value_pairs(text_lines(text))
}

/// The key/value pairs of the lines that hold an `=`.
pub open spec fn key_value_pairs(lines: Seq<Seq<char>>) -> Seq<(Seq<char>, Seq<char>)>
    decreases lines.len(),
{
    if lines.len() == 0 {
        Seq::empty()
    } else {
        let rest = key_value_pairs(lines.drop_last());
        match split_first(lines.last(), '=') {
            Some(p) => rest.push(p),
            None => rest,
        }
    }
}

/// Whether `f` ends in a carriage return.
fn ends_with_cr(f: &str) -> (r: bool)
    ensures
        r == (f@.len() > 0 && f@.last() == '\r'),
{
    let n = f.unicode_len();
    n > 0 && f.get_char(n - 1) == '\r'
}

/// The key/value pairs of the lines of `text` that hold an `=` (the
/// entitlements file format).
pub fn parse_key_values(text: &str) -> (r: Vec<(String, String)>)
    ensures
        pair_texts(r@) == key_value_lines(text@),
{
    let fields = split_fields(text, '\n');
    let ghost fv = str_views(fields@);
    proof {
        lemma_split_nonempty(text@, '\n');
    }
    let n = fields.len();
    let last_empty = fields[n - 1].unicode_len() == 0;
    let count = if last_empty { n - 1 } else { n };
    let ghost lines = text_lines(text@);
    proof {
        assert(fv.last() == fields@[n - 1]@);
        assert(lines.len() == count);
    }
    let mut out: Vec<(String, String)> = Vec::new();
    proof {
        assert(pair_texts(out@) =~= Seq::empty());
        assert(lines.take(0) =~= Seq::<Seq<char>>::empty());
    }
    let mut i: usize = 0;
    while i < count
        invariant
            n == fields@.len(),
            n >= 1,
            fv == str_views(fields@),
            fv == split_chars(text@, '\n'),
            lines == text_lines(text@),
            count == lines.len(),
            count <= n,
            0 <= i <= count,
            pair_texts(out@) == key_value_pairs(lines.take(i as int)),
        decreases count - i,
    {
        let f = fields[i];
        proof {
            assert(fv[i as int] == f@);
        }
        let line = if i < n - 1 && ends_with_cr(f) {
            let len = f.unicode_len();
            f.substring_char(0, len - 1)
        } else {
            f
        };
        proof {
            assert(line@ == lines[i as int]) by {
                if i < n - 1 && f@.len() > 0 && f@.last() == '\r' {
                    assert(line@ =~= f@.drop_last());
                }
            }
            assert(lines.take(i + 1).drop_last() =~= lines.take(i as int));
            assert(lines.take(i + 1).last() == lines[i as int]);
        }
        match split_once_char(line, '=') {
            Some((k, v)) => {
                proof {
                    lemma_split_first(k@, '=', v@);
                }
                push_pair(&mut out, k.to_owned(), v.to_owned());
            },
            None => {},
        }
        i = i + 1;
    }
    proof {
        assert(lines.take(count as int) =~= lines);
    }
    out
}

/// The configuration map answering a fetch of the configuration `id`
/// (see `config_source_of`): the data configuration, the menu messages for
/// server `version`, the entitlements read from the lines of
/// `entitlements`, the shop configuration `dime`, the coalesced version,
/// or, for the compressed coalesced and talk files, the map `loaded` that
/// the server loaded for the request; an empty map for any other ID.
pub fn fetch_client_config(id: &str, version: &str, entitlements: &str, dime: &str, loaded: AttrMap) -> (r: AttrMap)
    ensures
        match config_source_of(id@) {
            ConfigSource::Data => forall|k: Seq<char>| #[trigger] r.lookup(k)
                == lookup_last_text(data_config_entries(), k),
            ConfigSource::Messages => forall|k: Seq<char>| #[trigger] r.lookup(k) == lookup_last_text(
                message_entries_of(None, None, Some("Pocket Relay"@), intro_text(version@), 1, Some(1), MessageType::MenuTerminal, 1),
                k,
            ),
            ConfigSource::Entitlements => forall|k: Seq<char>| #[trigger] r.lookup(k)
                == lookup_last_text(key_value_lines(entitlements@), k),
            ConfigSource::Dime => forall|k: Seq<char>| #[trigger] r.lookup(k)
                == (if k == "Config"@ { Some(dime@) } else { None::<Seq<char>> }),
            ConfigSource::BiniVersion => forall|k: Seq<char>| #[trigger] r.lookup(k)
                == lookup_last_text(bini_version_entries(), k),
            ConfigSource::BiniCompressed => r.entries@ == loaded.entries@,
            ConfigSource::TalkFile => r.entries@ == loaded.entries@,
            ConfigSource::Unknown => r.entries@.len() == 0 && forall|k: Seq<char>| #[trigger] r.lookup(k) is None,
        },
{
    let (source, _) = config_source(id);
    match source {
        ConfigSource::Data => data_config(),
        ConfigSource::Messages => messages(version),
        ConfigSource::Entitlements => {
            let mut map = AttrMap::new();
            map.insert_all(parse_key_values(entitlements));
            map
        },
        ConfigSource::Dime => dime_config(dime),
        ConfigSource::BiniVersion => bini_version(),
        ConfigSource::BiniCompressed => loaded,
        ConfigSource::TalkFile => loaded,
        ConfigSource::Unknown => AttrMap::new(),
    }
}

} // verus!
