//! Identity certificates: a pair of keys in their textual form, and the
//! documents rendered from them.
//!
//! A certificate is rendered in two forms. The public document carries the
//! public key only and may be handed out. The secret document carries both
//! keys under a banner that warns to keep it private.

use vstd::prelude::*;
use vstd::string::StringExecFns;
use crate::text::chars_of;
use crate::text::occurs_at;
use crate::text::occurs_in;

verus! {

/// Number of characters in the textual form of a key.
pub const KEY_TEXT_LEN: usize = 40;

/// Number of characters in a time stamp.
pub const TIMESTAMP_LEN: usize = 19;

/// Pattern by which the clock's time is written: the date, a blank, and
/// the time of day.
pub const TIMESTAMP_FORMAT: &'static str = "%F %T";

/// Time stamp that is written where the clock's text has not the form of
/// one.
pub const UNKNOWN_TIME: &'static str = "0000-00-00 00:00:00";

/// Banner that opens the body of a secret document.
pub const SECRET_WARNING: &'static str =
    "#   THIS FILE MUST BE KEPT PRIVATE AT ALL TIMES AND NEVER SHARED!\n";

/// Whether `c` belongs to the alphabet in which keys are written: the
/// digits, the letters, and `.-:+=^!/*?&<>()[]{}@%$#`.
pub open spec fn is_key_char(c: char) -> bool {
    let u = c as u32;
    ||| 0x30 <= u <= 0x39
    ||| 0x41 <= u <= 0x5a
    ||| 0x61 <= u <= 0x7a
    ||| u == 0x21
    ||| 0x23 <= u <= 0x26
    ||| 0x28 <= u <= 0x2b
    ||| 0x2d <= u <= 0x2f
    ||| u == 0x3a
    ||| 0x3c <= u <= 0x40
    ||| u == 0x5b
    ||| u == 0x5d
    ||| u == 0x5e
    ||| u == 0x7b
    ||| u == 0x7d
}

/// Whether `s` is the textual form of a key: forty characters of the key
/// alphabet.
pub open spec fn is_key_text(s: Seq<char>) -> bool {
    &&& s.len() == KEY_TEXT_LEN
    &&& forall|i: int| 0 <= i < s.len() ==> is_key_char(#[trigger] s[i])
}

fn key_char(c: char) -> (r: bool)
    ensures
        r == is_key_char(c),
{
    let u: u32 = c as u32;
    (0x30 <= u && u <= 0x39) || (0x41 <= u && u <= 0x5a) || (0x61 <= u && u <= 0x7a) || u == 0x21
        || (0x23 <= u && u <= 0x26) || (0x28 <= u && u <= 0x2b) || (0x2d <= u && u <= 0x2f) || u
        == 0x3a || (0x3c <= u && u <= 0x40) || u == 0x5b || u == 0x5d || u == 0x5e || u == 0x7b
        || u == 0x7d
}

/// Whether `s` is the textual form of a key.
pub fn key_text(s: &str) -> (r: bool)
    ensures
        r == is_key_text(s@),
{
    let v = chars_of(s);
    if v.len() != KEY_TEXT_LEN {
        return false;
    }
    let mut i: usize = 0;
    while i < v.len()
        invariant
            v@ == s@,
            i <= v.len(),
            forall|k: int| 0 <= k < i ==> is_key_char(#[trigger] s@[k]),
        decreases v.len() - i,
    {
        if !key_char(v[i]) {
            return false;
        }
        i += 1;
    }
    true
}

/// What a certificate holds, as mathematical values.
pub struct CertView {
    /// The public key, in text.
    pub public_key: Seq<char>,
    /// The secret key, in text.
    pub secret_key: Seq<char>,
    /// The metadata, as it came off the wire.
    pub metadata: Seq<u8>,
}

/// A certificate: the two keys of an identity and its metadata.
///
/// Both keys are held in their textual form and are always well formed
/// (see [`is_key_text`]). The metadata is kept as opaque bytes; nothing
/// reads them yet.
pub struct Cert {
    public_txt: String,
    secret_txt: String,
    meta: Vec<u8>,
}

impl View for Cert {
    type V = CertView;

    closed spec fn view(&self) -> CertView {
        CertView {
            public_key: self.public_txt@,
            secret_key: self.secret_txt@,
            metadata: self.meta@,
        }
    }
}

/// The first lines of a document: who made it and when, which kind it is,
/// and for a secret document the warning banner.
pub open spec fn header_spec(secret: bool, timestamp: Seq<char>) -> Seq<char> {
    "#   ****  Generated on "@ + timestamp + " by incli  ****\n#   Intecture CURVE "@ + (if secret {
        "SECRET"@
    } else {
        "Public"@
    }) + " Certificate\n"@ + (if secret {
        SECRET_WARNING@
    } else {
        Seq::<char>::empty()
    }) + "\n"@
}

/// The metadata section of a document. It is reserved and holds no entry.
pub open spec fn metadata_spec() -> Seq<char> {
    "metadata\n"@
}

/// The key section of a document: always the public key, and the secret
/// key only in a secret document.
pub open spec fn keys_spec(public_key: Seq<char>, secret_key: Seq<char>, secret: bool) -> Seq<
    char,
> {
    "curve\n    public-key = \""@ + public_key + "\""@ + (if secret {
        "\n    secret-key = \""@ + secret_key + "\""@
    } else {
        Seq::<char>::empty()
    })
}

/// The whole document: header, metadata section, key section.
pub open spec fn document_spec(c: CertView, secret: bool, timestamp: Seq<char>) -> Seq<char> {
    header_spec(secret, timestamp) + metadata_spec() + keys_spec(
        c.public_key,
        c.secret_key,
        secret,
    )
}

/// The local time, written by `format`.
///
/// Trusted: calls `time::now` and formats what it returns with
/// `time::strftime`; a pattern that `time::strftime` refuses gives the
/// empty text. The result depends on the clock, so the contract promises
/// nothing of it: [`timestamp_or_unknown`] tests what came back.
#[verifier::external_body]
fn local_time(format: &str) -> (text: String) {
    match time::strftime(format, &time::now()) {
        Ok(text) => text,
        Err(_) => String::new(),
    }
}

/// Whether `c` is a decimal digit.
pub open spec fn is_digit(c: char) -> bool {
    0x30 <= c as u32 <= 0x39
}

/// Whether `c` may stand at place `i` of a time stamp: a hyphen at 4 and
/// 7, a blank at 10, a colon at 13 and 16, and a digit anywhere else.
pub open spec fn fits_timestamp(i: int, c: char) -> bool {
    if i == 4 || i == 7 {
        c == '-'
    } else if i == 10 {
        c == ' '
    } else if i == 13 || i == 16 {
        c == ':'
    } else {
        is_digit(c)
    }
}

/// Whether `ts` has the form of a time stamp, `YYYY-MM-DD HH:MM:SS`.
pub open spec fn is_timestamp(ts: Seq<char>) -> bool {
    &&& ts.len() == TIMESTAMP_LEN
    &&& forall|i: int| 0 <= i < ts.len() ==> fits_timestamp(i, #[trigger] ts[i])
}

fn timestamp_char(i: usize, c: char) -> (r: bool)
    ensures
        r == fits_timestamp(i as int, c),
{
    if i == 4 || i == 7 {
        c == '-'
    } else if i == 10 {
        c == ' '
    } else if i == 13 || i == 16 {
        c == ':'
    } else {
        let u: u32 = c as u32;
        0x30 <= u && u <= 0x39
    }
}

/// Whether `s` has the form of a time stamp.
pub fn timestamp_text(s: &str) -> (r: bool)
    ensures
        r == is_timestamp(s@),
{
    let v = chars_of(s);
    if v.len() != TIMESTAMP_LEN {
        return false;
    }
    let mut i: usize = 0;
    while i < v.len()
        invariant
            v@ == s@,
            i <= v.len(),
            forall|k: int| 0 <= k < i ==> fits_timestamp(k, #[trigger] s@[k]),
        decreases v.len() - i,
    {
        if !timestamp_char(i, v[i]) {
            return false;
        }
        i += 1;
    }
    true
}

/// The unknown time has the form of a time stamp.
pub proof fn lemma_unknown_time_is_timestamp()
    ensures
        is_timestamp(UNKNOWN_TIME@),
{
    reveal_strlit("0000-00-00 00:00:00");
    let ts = UNKNOWN_TIME@;
    assert(ts.len() == 19);
    assert forall|i: int| 0 <= i < ts.len() implies fits_timestamp(i, #[trigger] ts[i]) by {
        assert(ts[4] == '-' && ts[7] == '-' && ts[10] == ' ' && ts[13] == ':' && ts[16] == ':');
        assert(ts[0] == '0' && ts[1] == '0' && ts[2] == '0' && ts[3] == '0' && ts[5] == '0'
            && ts[6] == '0' && ts[8] == '0' && ts[9] == '0' && ts[11] == '0' && ts[12] == '0'
            && ts[14] == '0' && ts[15] == '0' && ts[17] == '0' && ts[18] == '0');
    }
}

/// The time stamp to write for what the clock gave: the clock's text if it
/// has the form of a time stamp, else the unknown time.
pub fn timestamp_or_unknown(clock: &str) -> (ts: &str)
    ensures
        is_timestamp(ts@),
        ts@ == if is_timestamp(clock@) {
            clock@
        } else {
            UNKNOWN_TIME@
        },
{
    if timestamp_text(clock) {
        clock
    } else {
        proof {
            lemma_unknown_time_is_timestamp();
        }
        UNKNOWN_TIME
    }
}

impl Cert {
    /// Both keys are well formed.
    pub open spec fn wf(&self) -> bool {
        &&& is_key_text(self@.public_key)
        &&& is_key_text(self@.secret_key)
    }

    #[verifier::type_invariant]
    spec fn inv(&self) -> bool {
        &&& is_key_text(self.public_txt@)
        &&& is_key_text(self.secret_txt@)
    }

    /// Makes a certificate from the textual form of its two keys, with no
    /// metadata. `None` where either text is not a well-formed key.
    pub fn new(public_txt: &str, secret_txt: &str) -> (r: Option<Cert>)
        ensures
            r is Some <==> is_key_text(public_txt@) && is_key_text(secret_txt@),
            r matches Some(c) ==> c.wf() && c@ == (CertView {
                public_key: public_txt@,
                secret_key: secret_txt@,
                metadata: Seq::<u8>::empty(),
            }),
    {
        if key_text(public_txt) && key_text(secret_txt) {
            Some(
                Cert {
                    public_txt: public_txt.to_owned(),
                    secret_txt: secret_txt.to_owned(),
                    meta: Vec::new(),
                },
            )
        } else {
            None
        }
    }

    /// The public key, in text.
    pub fn public_txt(&self) -> (r: &str)
        ensures
            r@ == self@.public_key,
            self.wf(),
    {
        proof {
            use_type_invariant(self);
        }
        self.public_txt.as_str()
    }

    /// The secret key, in text.
    pub fn secret_txt(&self) -> (r: &str)
        ensures
            r@ == self@.secret_key,
            self.wf(),
    {
        proof {
            use_type_invariant(self);
        }
        self.secret_txt.as_str()
    }

    /// The metadata bytes.
    pub fn meta(&self) -> (r: &Vec<u8>)
        ensures
            r@ == self@.metadata,
    {
        &self.meta
    }

    /// Takes `meta` as the certificate's metadata. Any bytes are accepted:
    /// the content is not interpreted.
    pub fn decode_meta(&mut self, meta: Vec<u8>)
        ensures
            final(self)@ == (CertView { metadata: meta@, ..old(self)@ }),
            final(self).wf(),
    {
        proof {
            use_type_invariant(&*self);
        }
        self.meta = meta;
    }

    /// The header of a document made at `timestamp`.
    pub fn header_at(secret: bool, timestamp: &str) -> (out: String)
        ensures
            out@ == header_spec(secret, timestamp@),
    {
        let mut out = "#   ****  Generated on ".to_owned();
        out.append(timestamp);
        out.append(" by incli  ****\n#   Intecture CURVE ");
        if secret {
            out.append("SECRET");
        } else {
            out.append("Public");
        }
        out.append(" Certificate\n");
        if secret {
            out.append(SECRET_WARNING);
        } else {
            assert(out@ + Seq::<char>::empty() =~= out@);
        }
        out.append("\n");
        out
    }

    /// The header of a document made now: the time stamp is the clock's
    /// local time, or [`UNKNOWN_TIME`] where the clock's text has not the
    /// form of a time stamp. The header of a public document names its
    /// kind and holds neither the secret key, nor the label of one, nor the
    /// warning banner.
    pub fn header(&self, secret: bool) -> (out: String)
        ensures
            exists|timestamp: Seq<char>|
                is_timestamp(timestamp) && out@ == header_spec(secret, timestamp),
            !secret ==> !occurs_in(out@, self@.secret_key),
            !secret ==> !occurs_in(out@, secret_label()),
            !secret ==> !occurs_in(out@, SECRET_WARNING@),
            !secret ==> occurs_in(out@, "Public"@),
    {
        let clock = local_time(TIMESTAMP_FORMAT);
        let now = timestamp_or_unknown(clock.as_str());
        proof {
            use_type_invariant(self);
            lemma_public_header_omits_key(self@.secret_key, now@);
            lemma_public_header_words(now@);
        }
        Cert::header_at(secret, now)
    }

    /// Appends the metadata section to `header`.
    pub fn add_metadata(&self, header: &mut String)
        ensures
            final(header)@ == old(header)@ + metadata_spec(),
    {
        header.append("metadata\n");
    }

    /// Renders the certificate as a document made at `timestamp`: the
    /// secret document if `secret`, else the public one.
    pub fn render_at(&self, secret: bool, timestamp: &str) -> (out: String)
        ensures
            out@ == document_spec(self@, secret, timestamp@),
    {
        let mut out = Cert::header_at(secret, timestamp);
        self.add_metadata(&mut out);
        let ghost before = out@;
        out.append("curve\n    public-key = \"");
        out.append(self.public_txt.as_str());
        out.append("\"");
        if secret {
            out.append("\n    secret-key = \"");
            out.append(self.secret_txt.as_str());
            out.append("\"");
        }
        assert(out@ =~= before + keys_spec(self@.public_key, self@.secret_key, secret));
        out
    }

    /// Renders the certificate as a document made now: the time stamp is
    /// the clock's local time, or [`UNKNOWN_TIME`] where the clock's text
    /// has not the form of a time stamp. The public document of a
    /// certificate whose two keys differ does not hold the secret key.
    pub fn render(&self, secret: bool) -> (out: String)
        ensures
            exists|timestamp: Seq<char>|
                is_timestamp(timestamp) && out@ == document_spec(self@, secret, timestamp),
            !secret && self@.secret_key != self@.public_key ==> !occurs_in(
                out@,
                self@.secret_key,
            ),
    {
        let clock = local_time(TIMESTAMP_FORMAT);
        let now = timestamp_or_unknown(clock.as_str());
        proof {
            use_type_invariant(self);
            if self@.secret_key != self@.public_key {
                lemma_public_document_omits_secret_key(self@, now@);
            }
        }
        self.render_at(secret, now)
    }

    /// The secret document, made now. It holds the secret key, so it is to
    /// travel over encrypted channels only.
    pub fn secret(&self) -> (out: String)
        ensures
            exists|timestamp: Seq<char>|
                is_timestamp(timestamp) && out@ == document_spec(self@, true, timestamp),
    {
        self.render(true)
    }

    /// The public document, made now. Unless the two keys are the same,
    /// it does not hold the secret key.
    pub fn public(&self) -> (out: String)
        ensures
            exists|timestamp: Seq<char>|
                is_timestamp(timestamp) && out@ == document_spec(self@, false, timestamp),
            self@.secret_key != self@.public_key ==> !occurs_in(out@, self@.secret_key),
    {
        self.render(false)
    }
}

/// A text stands in any text built around it.
pub proof fn lemma_occurs_in_middle(before: Seq<char>, x: Seq<char>, after: Seq<char>)
    ensures
        occurs_in(before + x + after, x),
{
    let whole = before + x + after;
    assert(whole.subrange(before.len() as int, (before.len() + x.len()) as int) =~= x);
    assert(occurs_at(whole, x, before.len() as int));
}

/// A secret document holds the public key, the secret key and the warning
/// banner, whatever the keys and the time.
pub proof fn lemma_secret_document_holds_keys_and_warning(c: CertView, timestamp: Seq<char>)
    ensures
        occurs_in(document_spec(c, true, timestamp), c.public_key),
        occurs_in(document_spec(c, true, timestamp), c.secret_key),
        occurs_in(document_spec(c, true, timestamp), SECRET_WARNING@),
{
    let doc = document_spec(c, true, timestamp);
    let head = "#   ****  Generated on "@ + timestamp + " by incli  ****\n#   Intecture CURVE "@
        + "SECRET"@ + " Certificate\n"@;
    let tail = "\n"@ + metadata_spec() + keys_spec(c.public_key, c.secret_key, true);
    assert(doc =~= head + SECRET_WARNING@ + tail);
    lemma_occurs_in_middle(head, SECRET_WARNING@, tail);

    let upto_pub = header_spec(true, timestamp) + metadata_spec() + "curve\n    public-key = \""@;
    let after_pub = "\""@ + ("\n    secret-key = \""@ + c.secret_key + "\""@);
    assert(doc =~= upto_pub + c.public_key + after_pub);
    lemma_occurs_in_middle(upto_pub, c.public_key, after_pub);

    let upto_sec = upto_pub + c.public_key + "\""@ + "\n    secret-key = \""@;
    assert(doc =~= upto_sec + c.secret_key + "\""@);
    lemma_occurs_in_middle(upto_sec, c.secret_key, "\""@);
}

/// The public document is made of the public key and the time alone: two
/// certificates with the same public key render the same public document.
pub proof fn lemma_public_document_ignores_secret_key(a: CertView, b: CertView, timestamp: Seq<char>)
    requires
        a.public_key == b.public_key,
    ensures
        document_spec(a, false, timestamp) == document_spec(b, false, timestamp),
{
}

/// Whether `c` parts the words of a document: a blank, a line break or a
/// quotation mark. No key holds one.
pub open spec fn is_separator(c: char) -> bool {
    c == ' ' || c == '\n' || c == '"'
}

proof fn lemma_no_separator_in_key(doc: Seq<char>, key: Seq<char>, at: int, s: int)
    requires
        is_key_text(key),
        occurs_at(doc, key, at),
        at <= s < at + KEY_TEXT_LEN,
    ensures
        !is_separator(doc[s]),
{
    assert(doc.subrange(at, at + key.len())[s - at] == doc[s]);
    assert(is_key_char(key[s - at]));
}

/// What a public document holds before the time stamp.
#[verifier::opaque]
spec fn public_opening() -> Seq<char> {
    "#   ****  Generated on "@
}

/// What a public document holds between the time stamp and the public key.
#[verifier::opaque]
spec fn public_middle() -> Seq<char> {
    " by incli  ****\n#   Intecture CURVE "@ + "Public"@ + " Certificate\n"@ + "\n"@
        + "metadata\n"@ + "curve\n    public-key = \""@
}

/// What a public document holds after the public key.
#[verifier::opaque]
spec fn public_closing() -> Seq<char> {
    "\""@
}

proof fn lemma_public_document_parts(c: CertView, timestamp: Seq<char>)
    ensures
        document_spec(c, false, timestamp) == public_opening() + timestamp + public_middle()
            + c.public_key + public_closing(),
{
    reveal(public_opening);
    reveal(public_middle);
    reveal(public_closing);
    assert(document_spec(c, false, timestamp) =~= public_opening() + timestamp + public_middle()
        + c.public_key + public_closing());
}

proof fn lemma_public_opening_shape()
    ensures
        public_opening().len() == 23,
        is_separator(public_opening()[22]),
{
    reveal(public_opening);
    reveal_strlit("#   ****  Generated on ");
}

proof fn lemma_public_closing_shape()
    ensures
        public_closing().len() == 1,
        is_separator(public_closing()[0]),
{
    reveal(public_closing);
    reveal_strlit("\"");
}

proof fn lemma_public_middle_shape()
    ensures
        public_middle().len() == 89,
        is_separator(public_middle()[0]),
        is_separator(public_middle()[35]),
        is_separator(public_middle()[42]),
        is_separator(public_middle()[54]),
        is_separator(public_middle()[64]),
        is_separator(public_middle()[88]),
{
    reveal(public_middle);
    reveal_strlit(" by incli  ****\n#   Intecture CURVE ");
    reveal_strlit("Public");
    reveal_strlit(" Certificate\n");
    reveal_strlit("\n");
    reveal_strlit("metadata\n");
    reveal_strlit("curve\n    public-key = \"");
    let b1 = " by incli  ****\n#   Intecture CURVE "@;
    let b2 = "Public"@;
    let b3 = " Certificate\n"@;
    let b4 = "\n"@;
    let b5 = "metadata\n"@;
    let b6 = "curve\n    public-key = \""@;
    let m = public_middle();
    assert(b1.len() == 36 && b2.len() == 6 && b3.len() == 13 && b4.len() == 1 && b5.len() == 9
        && b6.len() == 24);
    assert(m[0] == b1[0]);
    assert(m[35] == b1[35]);
    assert(m[42] == b3[0]);
    assert(m[54] == b3[12]);
    assert(m[64] == b5[8]);
    assert(m[88] == b6[23]);
}

proof fn lemma_key_among_separators(
    a: Seq<char>,
    ts: Seq<char>,
    m: Seq<char>,
    pk: Seq<char>,
    q: Seq<char>,
    key: Seq<char>,
    p: int,
)
    requires
        is_key_text(key),
        pk.len() == KEY_TEXT_LEN,
        a.len() == 23,
        is_separator(a[22]),
        m.len() == 89,
        is_separator(m[0]),
        is_separator(m[35]),
        is_separator(m[42]),
        is_separator(m[54]),
        is_separator(m[64]),
        is_separator(m[88]),
        q.len() == 1,
        is_separator(q[0]),
        occurs_at(a + ts + m + pk + q, key, p),
    ensures
        key == pk || occurs_at(ts, key, p - 23),
{
    let doc = a + ts + m + pk + q;
    let e_ts = 23 + ts.len() as int;
    let e_m = e_ts + 89;
    assert(doc.len() == e_m + 41);
    if p <= 22 {
        assert(doc[22] == a[22]);
        lemma_no_separator_in_key(doc, key, p, 22);
    } else if p <= e_ts {
        if p + 40 <= e_ts {
            assert(ts.subrange(p - 23, p - 23 + key.len()) =~= doc.subrange(p, p + key.len()));
        } else {
            assert(doc[e_ts] == m[0]);
            lemma_no_separator_in_key(doc, key, p, e_ts);
        }
    } else if p <= e_ts + 35 {
        assert(doc[e_ts + 35] == m[35]);
        lemma_no_separator_in_key(doc, key, p, e_ts + 35);
    } else if p <= e_ts + 42 {
        assert(doc[e_ts + 42] == m[42]);
        lemma_no_separator_in_key(doc, key, p, e_ts + 42);
    } else if p <= e_ts + 54 {
        assert(doc[e_ts + 54] == m[54]);
        lemma_no_separator_in_key(doc, key, p, e_ts + 54);
    } else if p <= e_ts + 64 {
        assert(doc[e_ts + 64] == m[64]);
        lemma_no_separator_in_key(doc, key, p, e_ts + 64);
    } else if p <= e_ts + 88 {
        assert(doc[e_ts + 88] == m[88]);
        lemma_no_separator_in_key(doc, key, p, e_ts + 88);
    } else if p == e_m {
        assert(doc.subrange(p, p + key.len()) =~= pk);
    } else {
        assert(doc[e_m + 40] == q[0]);
        lemma_no_separator_in_key(doc, key, p, e_m + 40);
    }
}

proof fn lemma_key_in_time_stamp(
    a: Seq<char>,
    ts: Seq<char>,
    rest: Seq<char>,
    key: Seq<char>,
    i: int,
)
    requires
        occurs_at(ts, key, i),
    ensures
        occurs_at(a + ts + rest, key, a.len() + i),
{
    assert((a + ts + rest).subrange(a.len() + i, a.len() + i + key.len()) =~= ts.subrange(
        i,
        i + key.len(),
    ));
}

/// The public document holds the text of the secret key in two cases
/// only: where the secret key is the same as the public key, and where it
/// stands in the time stamp.
pub proof fn lemma_secret_key_in_public_document(c: CertView, timestamp: Seq<char>)
    requires
        is_key_text(c.public_key),
        is_key_text(c.secret_key),
    ensures
        occurs_in(document_spec(c, false, timestamp), c.secret_key) <==> (c.secret_key
            == c.public_key || occurs_in(timestamp, c.secret_key)),
{
    lemma_public_document_parts(c, timestamp);
    lemma_public_opening_shape();
    lemma_public_middle_shape();
    lemma_public_closing_shape();
    let a = public_opening();
    let m = public_middle();
    let q = public_closing();
    let key = c.secret_key;
    let doc = document_spec(c, false, timestamp);
    if key == c.public_key {
        lemma_occurs_in_middle(a + timestamp + m, c.public_key, q);
    }
    if occurs_in(timestamp, key) {
        let i = choose|i: int| occurs_at(timestamp, key, i);
        lemma_key_in_time_stamp(a, timestamp, m + c.public_key + q, key, i);
        assert(a + timestamp + (m + c.public_key + q) =~= doc);
    }
    if occurs_in(doc, key) {
        let p = choose|p: int| occurs_at(doc, key, p);
        lemma_key_among_separators(a, timestamp, m, c.public_key, q, key, p);
    }
}

/// Whether the letter `c` stands nowhere in `s`.
pub open spec fn lacks(s: Seq<char>, c: char) -> bool {
    forall|i: int| 0 <= i < s.len() ==> #[trigger] s[i] != c
}

/// The label under which a secret key is written.
pub open spec fn secret_label() -> Seq<char> {
    "secret-key"@
}

proof fn lemma_public_header_parts(timestamp: Seq<char>)
    ensures
        header_spec(false, timestamp) == "#   ****  Generated on "@ + timestamp
            + " by incli  ****\n#   Intecture CURVE "@ + "Public"@ + " Certificate\n\n"@,
        lacks("#   ****  Generated on "@, 's'),
        lacks("#   ****  Generated on "@, 'H'),
        lacks(" by incli  ****\n#   Intecture CURVE "@, 's'),
        lacks(" by incli  ****\n#   Intecture CURVE "@, 'H'),
        lacks("Public"@, 's'),
        lacks("Public"@, 'H'),
        lacks(" Certificate\n\n"@, 's'),
        lacks(" Certificate\n\n"@, 'H'),
{
    reveal_strlit("#   ****  Generated on ");
    reveal_strlit(" by incli  ****\n#   Intecture CURVE ");
    reveal_strlit("Public");
    reveal_strlit(" Certificate\n");
    reveal_strlit(" Certificate\n\n");
    reveal_strlit("\n");
    assert(" Certificate\n"@ + Seq::<char>::empty() + "\n"@ =~= " Certificate\n\n"@);
    assert(header_spec(false, timestamp) =~= "#   ****  Generated on "@ + timestamp
        + " by incli  ****\n#   Intecture CURVE "@ + "Public"@ + " Certificate\n\n"@);
}

/// The header of a public document names its kind, and holds neither the
/// label of a secret key nor the warning banner.
pub proof fn lemma_public_header_words(timestamp: Seq<char>)
    requires
        is_timestamp(timestamp),
    ensures
        occurs_in(header_spec(false, timestamp), "Public"@),
        !occurs_in(header_spec(false, timestamp), secret_label()),
        !occurs_in(header_spec(false, timestamp), SECRET_WARNING@),
{
    lemma_public_header_parts(timestamp);
    let a = "#   ****  Generated on "@;
    let b = " by incli  ****\n#   Intecture CURVE "@;
    let k = "Public"@;
    let d = " Certificate\n\n"@;
    let header = header_spec(false, timestamp);
    lemma_occurs_in_middle(a + timestamp + b, k, d);
    assert forall|i: int| 0 <= i < timestamp.len() implies timestamp[i] != 's' && timestamp[i]
        != 'H' by {
        assert(fits_timestamp(i, timestamp[i]));
    }
    assert forall|i: int| 0 <= i < header.len() implies header[i] != 's' && header[i] != 'H' by {
        if i < a.len() {
            assert(header[i] == a[i]);
        } else if i < a.len() + timestamp.len() {
            assert(header[i] == timestamp[i - a.len()]);
        } else if i < a.len() + timestamp.len() + b.len() {
            assert(header[i] == b[i - a.len() - timestamp.len()]);
        } else if i < a.len() + timestamp.len() + b.len() + k.len() {
            assert(header[i] == k[i - a.len() - timestamp.len() - b.len()]);
        } else {
            assert(header[i] == d[i - a.len() - timestamp.len() - b.len() - k.len()]);
        }
    }
    reveal_strlit("secret-key");
    reveal_strlit("#   THIS FILE MUST BE KEPT PRIVATE AT ALL TIMES AND NEVER SHARED!\n");
    if occurs_in(header, secret_label()) {
        let p = choose|p: int| occurs_at(header, secret_label(), p);
        assert(header.subrange(p, p + secret_label().len())[0] == secret_label()[0]);
        assert(header[p] == 's');
    }
    if occurs_in(header, SECRET_WARNING@) {
        let p = choose|p: int| occurs_at(header, SECRET_WARNING@, p);
        assert(header.subrange(p, p + SECRET_WARNING@.len())[5] == SECRET_WARNING@[5]);
        assert(header[p + 5] == 'H');
    }
}

/// The header of a public document holds no key, whatever the key, where
/// the time is written in fewer characters than a key.
pub proof fn lemma_public_header_omits_key(key: Seq<char>, timestamp: Seq<char>)
    requires
        is_key_text(key),
        timestamp.len() < KEY_TEXT_LEN,
    ensures
        !occurs_in(header_spec(false, timestamp), key),
{
    let filler = if key[0] == '0' {
        '1'
    } else {
        '0'
    };
    let other = Seq::new(KEY_TEXT_LEN as nat, |i: int| filler);
    assert(is_key_char(filler));
    assert(other[0] != key[0]);
    let c = CertView { public_key: other, secret_key: key, metadata: Seq::<u8>::empty() };
    lemma_secret_key_in_public_document(c, timestamp);
    let header = header_spec(false, timestamp);
    let doc = document_spec(c, false, timestamp);
    if occurs_in(header, key) {
        let p = choose|p: int| occurs_at(header, key, p);
        assert(doc.subrange(p, p + key.len()) =~= header.subrange(p, p + key.len()));
        assert(occurs_at(doc, key, p));
    }
}

/// The public document of a certificate whose two keys differ, made at a
/// time that is written in fewer characters than a key, does not hold the
/// secret key.
pub proof fn lemma_public_document_omits_secret_key(c: CertView, timestamp: Seq<char>)
    requires
        is_key_text(c.public_key),
        is_key_text(c.secret_key),
        c.secret_key != c.public_key,
        timestamp.len() < KEY_TEXT_LEN,
    ensures
        !occurs_in(document_spec(c, false, timestamp), c.secret_key),
{
    lemma_secret_key_in_public_document(c, timestamp);
}

} // verus!
