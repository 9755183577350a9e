//! Sending mail: through the Gmail API, and through an SMTP server. The
//! tools read their arguments and check the addresses; the message itself is
//! built with lettre.
use vstd::prelude::*;
use crate::framework::{metadata_is, ToolCategory, ToolError, ToolMetadata, ToolType};
use crate::google::HttpReply;
use crate::json::{keys_of, lemma_lookup1, lemma_member_at, lemma_member_none, text_at, JsonValue};
use crate::text::copy_str;

verus! {

/// Whether lettre accepts the text as a mailbox (`Mailbox::from_str`).
pub uninterp spec fn mailbox_accepts(s: Seq<char>) -> bool;

/// The sender a Gmail message carries (Gmail puts in the account's own
/// address when it sends).
pub const GMAIL_SENDER: &'static str = "me@localhost";

/// The content type of a Gmail message: HTML in UTF-8, as lettre writes
/// `ContentType::TEXT_HTML`.
pub const HTML_CONTENT_TYPE: &'static str = "text/html; charset=utf-8";

/// Checks a mailbox with lettre (`Mailbox::from_str`). The contract names
/// when it succeeds (`mailbox_accepts`); lettre's address grammar is not
/// restated. lettre accepts the Gmail sender, a plain local part at the
/// domain `localhost`.
#[verifier::external_body]
fn mailbox_ok(s: &str) -> (r: bool)
    ensures
        r == mailbox_accepts(s@),
        s@ == GMAIL_SENDER@ ==> r,
{
    s.parse::<lettre::message::Mailbox>().is_ok()
}

/// A message to build: its headers, as text, and its HTML body.
pub struct MailMessage {
    pub from: String,
    pub to: String,
    pub subject: String,
    pub content_type: String,
    /// The message this one answers, for `In-Reply-To` and `References`.
    pub in_reply_to: Option<String>,
    pub body: String,
}

/// Whether `bytes` are what lettre writes (`Message::formatted`) for a
/// message with these `From`, `To`, `Subject` and `Content-Type` headers,
/// `In-Reply-To` and `References` naming `in_reply_to` when there is one,
/// and this body. lettre adds a `Date` header, the time the message is
/// built, so the bytes are not a function of these values alone.
pub uninterp spec fn lettre_rendering(
    bytes: Seq<u8>,
    from: Seq<char>,
    to: Seq<char>,
    subject: Seq<char>,
    content_type: Seq<char>,
    in_reply_to: Option<Seq<char>>,
    body: Seq<char>,
) -> bool;

/// Builds the message with lettre (`Message::builder`, `from`, `to`,
/// `subject`, `header`, `in_reply_to`, `references`, `body`) and formats
/// it. lettre's build fails only without a `From` or a `To`, both set here
/// from mailboxes it accepts. The contract says which message the bytes
/// render; the `Date` lettre adds is left unsaid.
#[verifier::external_body]
fn render_message(m: &MailMessage) -> (r: Vec<u8>)
    requires
        mailbox_accepts(m.from@),
        mailbox_accepts(m.to@),
        m.content_type@ == HTML_CONTENT_TYPE@,
    ensures
        lettre_rendering(r@, m.from@, m.to@, m.subject@, m.content_type@, opt_view(m.in_reply_to), m.body@),
{
    let b = lettre::Message::builder().from(m.from.parse().unwrap()).to(m.to.parse().unwrap());
    let b = b.subject(m.subject.clone()).header(
        lettre::message::header::ContentType::parse(&m.content_type).unwrap(),
    );
    let b = match &m.in_reply_to {
        Some(id) => b.in_reply_to(id.clone()).references(id.clone()),
        None => b,
    };
    b.body(m.body.clone()).unwrap().formatted()
}

/// The character of the URL-safe base64 alphabet for `v` (below 64):
/// `A`-`Z`, `a`-`z`, `0`-`9`, `-` and `_`.
pub open spec fn base64_char(v: int) -> char {
    if v < 26 {
        (65 + v) as char
    } else if v < 52 {
        (71 + v) as char
    } else if v < 62 {
        (v - 4) as char
    } else if v == 62 {
        '-'
    } else {
        '_'
    }
}

/// Base64 with the URL-safe alphabet and padding: each three bytes as four
/// characters of six bits each, a last one or two bytes padded with `=` to
/// four characters.
pub open spec fn url_safe_base64(b: Seq<u8>) -> Seq<char>
    decreases b.len(),
{
    let x = if b.len() > 0 { b[0] as int } else { 0 };
    let y = if b.len() > 1 { b[1] as int } else { 0 };
    let z = if b.len() > 2 { b[2] as int } else { 0 };
    if b.len() == 0 {
        Seq::empty()
    } else if b.len() == 1 {
        seq![base64_char(x / 4), base64_char((x % 4) * 16), '=', '=']
    } else if b.len() == 2 {
        seq![base64_char(x / 4), base64_char((x % 4) * 16 + y / 16), base64_char((y % 16) * 4), '=']
    } else {
        seq![
            base64_char(x / 4),
            base64_char((x % 4) * 16 + y / 16),
            base64_char((y % 16) * 4 + z / 64),
            base64_char(z % 64),
        ] + url_safe_base64(b.subrange(3, b.len() as int))
    }
}

/// Encodes bytes with base64's URL-safe engine (`Engine::encode` on
/// `URL_SAFE`, which pads); the contract states the encoding.
#[verifier::external_body]
fn encode_url_safe(b: &[u8]) -> (r: String)
    ensures
        r@ == url_safe_base64(b@),
{
    base64::Engine::encode(&base64::engine::general_purpose::URL_SAFE, b)
}

// ---------------------------------------------------------------------------
// Gmail.
// ---------------------------------------------------------------------------

/// The message a Gmail call asks for.
pub struct GmailDraft {
    pub to: String,
    pub subject: String,
    pub body: String,
    pub thread_id: Option<String>,
    pub message_id: Option<String>,
}

/// An optional string as plain text.
pub open spec fn opt_view(o: Option<String>) -> Option<Seq<char>> {
    match o {
        Some(s) => Some(s@),
        None => None,
    }
}

/// The body of a Gmail send: the raw message, and the thread when one is
/// named.
pub open spec fn send_body_is(p: JsonValue, raw: Seq<char>, thread: Option<Seq<char>>) -> bool {
    &&& keys_of(p) == seq!["raw"@] + match thread {
        Some(_) => seq!["threadId"@],
        None => Seq::empty(),
    }
    &&& text_at(p, seq!["raw"]) == Some(raw)
    &&& text_at(p, seq!["threadId"]) == thread
}

/// Sends an email through the Gmail API.
pub struct GoogleGmailTool {
    pub metadata: ToolMetadata,
}

impl GoogleGmailTool {
    /// The tool.
    pub fn new() -> (t: Self)
        ensures
            metadata_is(
                t.metadata,
                "send_gmail_oauth"@,
                "Send Email (Gmail)"@,
                ToolType::GoogleGmail,
                "Send an HTML-formatted email using the user's Gmail account via Google Workspace APIs."@,
                ToolCategory::Google,
            ),
    {
        GoogleGmailTool {
            metadata: ToolMetadata::from_parts(
                "send_gmail_oauth",
                "Send Email (Gmail)",
                ToolType::GoogleGmail,
                "Send an HTML-formatted email using the user's Gmail account via Google Workspace APIs.",
                ToolCategory::Google,
            ),
        }
    }

    /// The message a call asks for (its arguments, `None` when they were not
    /// JSON); recipient, subject and body are required.
    pub fn plan(args: Option<&JsonValue>) -> (r: Result<GmailDraft, ToolError>)
        ensures
            match args {
                None => r matches Err(e) && e.message@ == "Failed to parse arguments"@,
                Some(a) => if text_at(*a, seq!["to"]) is None {
                    r matches Err(e) && e.message@ == "Missing 'to'"@
                } else if text_at(*a, seq!["subject"]) is None {
                    r matches Err(e) && e.message@ == "Missing 'subject'"@
                } else if text_at(*a, seq!["body"]) is None {
                    r matches Err(e) && e.message@ == "Missing 'body'"@
                } else {
                    r matches Ok(d) && Some(d.to@) == text_at(*a, seq!["to"]) && Some(d.subject@)
                        == text_at(*a, seq!["subject"]) && Some(d.body@) == text_at(*a, seq!["body"])
                        && opt_view(d.thread_id) == text_at(*a, seq!["thread_id"]) && opt_view(
                        d.message_id,
                    ) == text_at(*a, seq!["message_id"])
                },
            },
    {
        let a = match args {
            Some(a) => a,
            None => {
                return Err(ToolError::msg("Failed to parse arguments"));
            },
        };
        let to = match a.text1("to") {
            Some(s) => copy_str(s),
            None => {
                return Err(ToolError::msg("Missing 'to'"));
            },
        };
        let subject = match a.text1("subject") {
            Some(s) => copy_str(s),
            None => {
                return Err(ToolError::msg("Missing 'subject'"));
            },
        };
        let body = match a.text1("body") {
            Some(s) => copy_str(s),
            None => {
                return Err(ToolError::msg("Missing 'body'"));
            },
        };
        let thread_id = match a.text1("thread_id") {
            Some(s) => Some(copy_str(s)),
            None => None,
        };
        let message_id = match a.text1("message_id") {
            Some(s) => Some(copy_str(s)),
            None => None,
        };
        Ok(GmailDraft { to, subject, body, thread_id, message_id })
    }

    /// The message a draft asks for: from the Gmail sender to the draft's
    /// recipient, in HTML, answering the draft's message id when it names one.
    pub fn message(d: &GmailDraft) -> (m: MailMessage)
        ensures
            m.from@ == GMAIL_SENDER@,
            m.to@ == d.to@,
            m.subject@ == d.subject@,
            m.content_type@ == HTML_CONTENT_TYPE@,
            opt_view(m.in_reply_to) == opt_view(d.message_id),
            m.body@ == d.body@,
    {
        MailMessage {
            from: copy_str(GMAIL_SENDER),
            to: d.to.clone(),
            subject: d.subject.clone(),
            content_type: copy_str(HTML_CONTENT_TYPE),
            in_reply_to: match &d.message_id {
                Some(id) => Some(id.clone()),
                None => None,
            },
            body: d.body.clone(),
        }
    }

    /// The body sending the draft: its message, rendered by lettre and
    /// encoded as URL-safe base64, and its thread. Fails exactly when lettre
    /// does not accept the recipient.
    pub fn payload(d: GmailDraft) -> (r: Result<JsonValue, ToolError>)
        ensures
            r is Ok <==> mailbox_accepts(d.to@),
            !mailbox_accepts(d.to@) ==> (r matches Err(e) && e.message@
                == "Invalid recipient email address"@),
            r matches Ok(p) ==> exists|bytes: Seq<u8>|
                lettre_rendering(
                    bytes,
                    GMAIL_SENDER@,
                    d.to@,
                    d.subject@,
                    HTML_CONTENT_TYPE@,
                    opt_view(d.message_id),
                    d.body@,
                ) && send_body_is(p, url_safe_base64(bytes), opt_view(d.thread_id)),
    {
        if !mailbox_ok(d.to.as_str()) {
            return Err(ToolError::msg("Invalid recipient email address"));
        }
        let sender_ok = mailbox_ok(GMAIL_SENDER);
        assert(sender_ok);
        let msg = Self::message(&d);
        let bytes = render_message(&msg);
        let raw = encode_url_safe(bytes.as_slice());
        let mut m: Vec<(String, JsonValue)> = Vec::new();
        m.push((copy_str("raw"), JsonValue::Str(raw)));
        let ghost has_thread = d.thread_id is Some;
        match d.thread_id {
            Some(t) => m.push((copy_str("threadId"), JsonValue::Str(t))),
            None => {},
        }
        proof {
            reveal_strlit("raw");
            reveal_strlit("threadId");
            assert("raw"@.len() != "threadId"@.len());
            if has_thread {
                lemma_member_at(m@, 1, "threadId"@);
            } else {
                lemma_member_none(m@, "threadId"@);
            }
        }
        let p = JsonValue::Object(m);
        proof {
            lemma_lookup1(p, "raw");
            lemma_lookup1(p, "threadId");
        }
        assert(keys_of(p) =~= seq!["raw"@] + if has_thread {
            seq!["threadId"@]
        } else {
            Seq::<Seq<char>>::empty()
        });
        assert(send_body_is(p, url_safe_base64(bytes@), opt_view(d.thread_id)));
        Ok(p)
    }

    /// The answer to a send to `to` from its reply.
    pub fn send_result(to: &str, reply: Option<&HttpReply>) -> (r: Result<String, ToolError>)
        ensures
            match reply {
                None => r matches Err(e) && e.message@ == "Failed to send request to Gmail API"@,
                Some(h) => if !h.success {
                    r matches Err(e) && e.message@ == "Gmail API failed with "@ + h.status@ + ": "@
                        + h.text@
                } else {
                    r matches Ok(s) && s@ == "Successfully sent email to "@ + to@ + " via Gmail API"@
                },
            },
    {
        let h = match reply {
            None => {
                return Err(ToolError::msg("Failed to send request to Gmail API"));
            },
            Some(h) => h,
        };
        if !h.success {
            let mut m = copy_str("Gmail API failed with ");
            m.append(h.status.as_str());
            m.append(": ");
            m.append(h.text.as_str());
            return Err(ToolError::new(m));
        }
        let mut o = copy_str("Successfully sent email to ");
        o.append(to);
        o.append(" via Gmail API");
        Ok(o)
    }
}

// ---------------------------------------------------------------------------
// SMTP.
// ---------------------------------------------------------------------------

/// The value of a string of decimal digits.
pub open spec fn digits_value(s: Seq<char>) -> nat
    decreases s.len(),
{
    if s.len() == 0 {
        0
    } else {
        digits_value(s.drop_last()) * 10 + (s.last() as nat - '0' as nat) as nat
    }
}

/// Every character is a decimal digit.
pub open spec fn all_digits(s: Seq<char>) -> bool {
    forall|i: int| 0 <= i < s.len() ==> '0' <= #[trigger] s[i] <= '9'
}

/// What `u16::from_str` reads: an optional `+`, then one or more decimal
/// digits whose value fits in sixteen bits.
pub open spec fn u16_text(s: Seq<char>) -> Option<u16> {
    let digits = if s.len() > 0 && s[0] == '+' {
        s.drop_first()
    } else {
        s
    };
    if digits.len() > 0 && all_digits(digits) && digits_value(digits) <= u16::MAX {
        Some(digits_value(digits) as u16)
    } else {
        None
    }
}

proof fn lemma_digits_value_grows(s: Seq<char>, k: int)
    requires
        0 <= k <= s.len(),
        all_digits(s),
    ensures
        digits_value(s.take(k)) <= digits_value(s),
    decreases s.len() - k,
{
    if k < s.len() {
        lemma_digits_value_grows(s, k + 1);
        assert(s.take(k + 1).drop_last() =~= s.take(k));
    } else {
        assert(s.take(k) =~= s);
    }
}

/// Reads a number the way `u16::from_str` does.
pub fn parse_u16(s: &str) -> (r: Option<u16>)
    ensures
        r == u16_text(s@),
{
    let cs = crate::text::chars_of(s);
    let mut i: usize = 0;
    if cs.len() > 0 && cs[0] == '+' {
        i = 1;
    }
    let ghost digits = if cs@.len() > 0 && cs@[0] == '+' {
        cs@.drop_first()
    } else {
        cs@
    };
    assert(digits =~= cs@.subrange(i as int, cs@.len() as int));
    if i == cs.len() {
        return None;
    }
    let start = i;
    let mut value: u32 = 0;
    while i < cs.len()
        invariant
            start <= i <= cs@.len(),
            cs@ == s@,
            digits == (if s@.len() > 0 && s@[0] == '+' {
                s@.drop_first()
            } else {
                s@
            }),
            digits.len() > 0,
            digits =~= cs@.subrange(start as int, cs@.len() as int),
            all_digits(cs@.subrange(start as int, i as int)),
            value == digits_value(cs@.subrange(start as int, i as int)),
            value <= u16::MAX,
        decreases cs@.len() - i,
    {
        let c = cs[i];
        let ghost before = cs@.subrange(start as int, i as int);
        let ghost after = cs@.subrange(start as int, i + 1);
        assert(after.drop_last() =~= before);
        assert(after.last() == c);
        if c < '0' || c > '9' {
            assert(digits[i - start] == c);
            assert(!all_digits(digits));
            return None;
        }
        let d: u32 = (c as u32) - ('0' as u32);
        value = value * 10 + d;
        assert(value == digits_value(after));
        if value > 65535 {
            proof {
                if all_digits(digits) {
                    assert(digits.take(i + 1 - start) =~= after);
                    lemma_digits_value_grows(digits, i + 1 - start);
                }
            }
            return None;
        }
        i = i + 1;
    }
    assert(cs@.subrange(start as int, i as int) =~= digits);
    Some(value as u16)
}

/// The SMTP settings: server, credentials, sender and port.
pub struct EmailConfig {
    pub server: String,
    pub username: String,
    pub password: String,
    pub from: String,
    pub port: u16,
}

/// The first of two settings that is given.
pub open spec fn either(a: Option<String>, b: Option<String>) -> Option<String> {
    match a {
        Some(x) => Some(x),
        None => b,
    }
}

impl EmailConfig {
    /// The settings from the values of `SMTP_SERVER`/`SMTP_HOST`,
    /// `SMTP_USERNAME`/`SMTP_USER`, `SMTP_PASSWORD`/`SMTP_PASS`,
    /// `SMTP_FROM_EMAIL`/`SMTP_FROM` and `SMTP_PORT` (`None` for one that is
    /// not set): none without a server, a user and a password; the sender is
    /// the user unless one is given; the port is 587 unless one is given
    /// that reads as a number.
    pub fn from_values(
        server: Option<String>,
        host: Option<String>,
        username: Option<String>,
        user: Option<String>,
        password: Option<String>,
        pass: Option<String>,
        from_email: Option<String>,
        from: Option<String>,
        port: Option<String>,
    ) -> (r: Option<EmailConfig>)
        ensures
            match (either(server, host), either(username, user), either(password, pass)) {
                (Some(sv), Some(u), Some(pw)) => r matches Some(c) && c.server == sv && c.username
                    == u && c.password@ == pw@ && c.from@ == match either(from_email, from) {
                    Some(f) => f@,
                    None => u@,
                } && c.port == match port {
                    Some(p) => match u16_text(p@) {
                        Some(n) => n,
                        None => 587,
                    },
                    None => 587,
                },
                _ => r is None,
            },
    {
        let server = match server {
            Some(s) => s,
            None => match host {
                Some(h) => h,
                None => {
                    return None;
                },
            },
        };
        let username = match username {
            Some(u) => u,
            None => match user {
                Some(u) => u,
                None => {
                    return None;
                },
            },
        };
        let password = match password {
            Some(p) => p,
            None => match pass {
                Some(p) => p,
                None => {
                    return None;
                },
            },
        };
        let from = match from_email {
            Some(f) => f,
            None => match from {
                Some(f) => f,
                None => username.clone(),
            },
        };
        let port = match port {
            Some(p) => match parse_u16(p.as_str()) {
                Some(n) => n,
                None => 587,
            },
            None => 587,
        };
        Some(EmailConfig { server, username, password, from, port })
    }

    /// Whether the server is reached over TLS from the start (port 465)
    /// rather than by STARTTLS.
    pub fn implicit_tls(&self) -> (b: bool)
        ensures
            b == (self.port == 465),
    {
        self.port == 465
    }
}

/// Sends an email through an SMTP server.
pub struct EmailTool {
    pub metadata: ToolMetadata,
    /// The sender, when a mailer could be set up.
    pub from_address: Option<String>,
}

impl EmailTool {
    /// The tool for the settings found (if any); `mailer_ready` says whether
    /// a mailer could be set up from them.
    pub fn new(config: Option<EmailConfig>, mailer_ready: bool) -> (t: Self)
        ensures
            t.from_address == match config {
                Some(c) => if mailer_ready {
                    Some(c.from)
                } else {
                    None
                },
                None => None,
            },
            metadata_is(
                t.metadata,
                "send_email"@,
                "Send Email"@,
                ToolType::Email,
                "Send an HTML-formatted email to a specified recipient. You must use standard HTML formatting. For example if sending a code snippet, format it with <pre><code>"@,
                ToolCategory::Utility,
            ),
    {
        let from_address = match config {
            Some(c) => if mailer_ready {
                Some(c.from)
            } else {
                None
            },
            None => None,
        };
        EmailTool {
            metadata: ToolMetadata::from_parts(
                "send_email",
                "Send Email",
                ToolType::Email,
                "Send an HTML-formatted email to a specified recipient. You must use standard HTML formatting. For example if sending a code snippet, format it with <pre><code>",
                ToolCategory::Utility,
            ),
            from_address,
        }
    }

    /// Whether the tool can send.
    pub fn is_available(&self) -> (b: bool)
        ensures
            b == self.from_address is Some,
    {
        self.from_address.is_some()
    }

    /// The recipient, subject and body a call asks for (its arguments,
    /// `None` when they were not JSON).
    pub fn request(&self, args: Option<&JsonValue>) -> (r: Result<(String, String, String), ToolError>)
        ensures
            self.from_address is None ==> (r matches Err(e) && e.message@
                == "Email tool is not properly configured. Missing SMTP environment variables."@),
            self.from_address is Some ==> match args {
                None => r matches Err(e) && e.message@ == "Failed to parse email tool arguments"@,
                Some(a) => if text_at(*a, seq!["to"]) is None {
                    r matches Err(e) && e.message@ == "Missing required parameter: 'to'"@
                } else if text_at(*a, seq!["subject"]) is None {
                    r matches Err(e) && e.message@ == "Missing required parameter: 'subject'"@
                } else if text_at(*a, seq!["body"]) is None {
                    r matches Err(e) && e.message@ == "Missing required parameter: 'body'"@
                } else {
                    r matches Ok(m) && Some(m.0@) == text_at(*a, seq!["to"]) && Some(m.1@) == text_at(
                        *a,
                        seq!["subject"],
                    ) && Some(m.2@) == text_at(*a, seq!["body"])
                },
            },
    {
        if self.from_address.is_none() {
            return Err(ToolError::msg("Email tool is not properly configured. Missing SMTP environment variables."));
        }
        let a = match args {
            Some(a) => a,
            None => {
                return Err(ToolError::msg("Failed to parse email tool arguments"));
            },
        };
        let to = match a.text1("to") {
            Some(s) => copy_str(s),
            None => {
                return Err(ToolError::msg("Missing required parameter: 'to'"));
            },
        };
        let subject = match a.text1("subject") {
            Some(s) => copy_str(s),
            None => {
                return Err(ToolError::msg("Missing required parameter: 'subject'"));
            },
        };
        let body = match a.text1("body") {
            Some(s) => copy_str(s),
            None => {
                return Err(ToolError::msg("Missing required parameter: 'body'"));
            },
        };
        Ok((to, subject, body))
    }

    /// Checks the sender and the recipient with lettre's mailbox parser.
    pub fn check_addresses(from: &str, to: &str) -> (r: Result<(), ToolError>)
        ensures
            !mailbox_accepts(from@) ==> (r matches Err(e) && e.message@ == "Invalid sender email address"@),
            mailbox_accepts(from@) && !mailbox_accepts(to@) ==> (r matches Err(e) && e.message@
                == "Invalid recipient email address"@),
            mailbox_accepts(from@) && mailbox_accepts(to@) ==> r is Ok,
    {
        if !mailbox_ok(from) {
            return Err(ToolError::msg("Invalid sender email address"));
        }
        if !mailbox_ok(to) {
            return Err(ToolError::msg("Invalid recipient email address"));
        }
        Ok(())
    }

    /// The answer once the mailer has tried to send to `to`: `Err` holds
    /// the mailer's error text.
    pub fn send_result(to: &str, outcome: Result<(), String>) -> (r: Result<String, ToolError>)
        ensures
            match outcome {
                Ok(_) => r matches Ok(s) && s@ == "Successfully sent email to "@ + to@,
                Err(e) => r matches Err(x) && x.message@ == "Failed to send email: "@ + e@,
            },
    {
        match outcome {
            Ok(_) => {
                let mut s = copy_str("Successfully sent email to ");
                s.append(to);
                Ok(s)
            },
            Err(e) => {
                let mut m = copy_str("Failed to send email: ");
                m.append(e.as_str());
                Err(ToolError::new(m))
            },
        }
    }
}

} // verus!
