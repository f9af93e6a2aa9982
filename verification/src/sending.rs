//! The parameter lists of the outbound message calls: what each kind of send
//! puts on the wire, for either platform. The transport performs the calls;
//! which parameters they carry is decided and pinned down here.

use vstd::prelude::*;

use crate::context::{MessageBuilder, Platform};
use crate::multipart::FileType;
use crate::params::{contains_param, has_param, params_view, push_param};
use crate::text::{dec_str_int, i64_to_dec, push_char};
use crate::tg_api::TGSendMessageOptions;
use crate::vk_api::VKMessagesSendOptions;

verus! {

/// The parameters of a plain text send: destination, text, and — for VK —
/// the zero random id that lets the platform deduplicate.
pub open spec fn spec_send_message_params(
    platform: Platform,
    peer_id: i64,
    message: Seq<char>,
) -> Seq<(Seq<char>, Seq<char>)> {
    match platform {
        Platform::VK => seq![
            ("peer_id"@, dec_str_int(peer_id as int)),
            ("message"@, message),
            ("random_id"@, "0"@),
        ],
        Platform::Telegram => seq![("chat_id"@, dec_str_int(peer_id as int)), ("text"@, message)],
    }
}

/// Builds the parameters of a plain text send.
pub fn send_message_params(platform: &Platform, peer_id: i64, message: &str) -> (ps: Vec<
    (String, String),
>)
    ensures
        params_view(ps@) == spec_send_message_params(*platform, peer_id, message@),
{
    let mut ps: Vec<(String, String)> = Vec::new();
    match platform {
        Platform::VK => {
            ps.push(("peer_id".to_owned(), i64_to_dec(peer_id)));
            ps.push(("message".to_owned(), message.to_owned()));
            ps.push(("random_id".to_owned(), "0".to_owned()));
        },
        Platform::Telegram => {
            ps.push(("chat_id".to_owned(), i64_to_dec(peer_id)));
            ps.push(("text".to_owned(), message.to_owned()));
        },
    }
    proof {
        assert(params_view(ps@) =~= spec_send_message_params(*platform, peer_id, message@));
    }
    ps
}

/// The parameters of an HTML-formatted send: as the plain send, with the
/// HTML parse mode on the Telegram side.
pub open spec fn spec_send_html_params(platform: Platform, peer_id: i64, message: Seq<char>) -> Seq<
    (Seq<char>, Seq<char>),
> {
    match platform {
        Platform::VK => spec_send_message_params(platform, peer_id, message),
        Platform::Telegram => spec_send_message_params(platform, peer_id, message).push(
            ("parse_mode"@, "HTML"@),
        ),
    }
}

/// Builds the parameters of an HTML-formatted send.
pub fn send_html_params(platform: &Platform, peer_id: i64, message: &str) -> (ps: Vec<
    (String, String),
>)
    ensures
        params_view(ps@) == spec_send_html_params(*platform, peer_id, message@),
{
    let mut ps = send_message_params(platform, peer_id, message);
    match platform {
        Platform::VK => {},
        Platform::Telegram => {
            push_param(&mut ps, "parse_mode", "HTML");
        },
    }
    ps
}

/// The parameters of a send with a keyboard: the plain send plus the
/// serialized markup — and, on Telegram, the HTML parse mode.
pub open spec fn spec_send_keyboard_params(
    platform: Platform,
    peer_id: i64,
    message: Seq<char>,
    markup: Seq<char>,
) -> Seq<(Seq<char>, Seq<char>)> {
    match platform {
        Platform::VK => spec_send_message_params(platform, peer_id, message).push(
            ("keyboard"@, markup),
        ),
        Platform::Telegram => spec_send_message_params(platform, peer_id, message).push(
            ("reply_markup"@, markup),
        ).push(("parse_mode"@, "HTML"@)),
    }
}

/// Builds the parameters of a send with a keyboard, the markup already
/// serialized.
pub fn send_keyboard_params(platform: &Platform, peer_id: i64, message: &str, markup: &str) -> (ps:
    Vec<(String, String)>)
    ensures
        params_view(ps@) == spec_send_keyboard_params(*platform, peer_id, message@, markup@),
{
    let mut ps = send_message_params(platform, peer_id, message);
    match platform {
        Platform::VK => {
            push_param(&mut ps, "keyboard", markup);
        },
        Platform::Telegram => {
            push_param(&mut ps, "reply_markup", markup);
            push_param(&mut ps, "parse_mode", "HTML");
        },
    }
    ps
}

/// The parameters of a send driven by explicit options: the options' own
/// rendering, the message added unless the options already carry exactly it,
/// and — for VK — the zero random id.
pub open spec fn spec_options_send_params(
    platform: Platform,
    vk: VKMessagesSendOptions,
    tg: TGSendMessageOptions,
    message: Seq<char>,
) -> Seq<(Seq<char>, Seq<char>)> {
    match platform {
        Platform::VK => {
            let base = vk.spec_params();
            let with_message = if has_param(base, "message"@, message) {
                base
            } else {
                base.push(("message"@, message))
            };
            with_message.push(("random_id"@, "0"@))
        },
        Platform::Telegram => {
            let base = tg.spec_params();
            if has_param(base, "text"@, message) {
                base
            } else {
                base.push(("text"@, message))
            }
        },
    }
}

/// Builds the parameters of a send driven by explicit options.
pub fn options_send_params(
    platform: &Platform,
    vk: &VKMessagesSendOptions,
    tg: &TGSendMessageOptions,
    message: &str,
) -> (ps: Vec<(String, String)>)
    ensures
        params_view(ps@) == spec_options_send_params(*platform, *vk, *tg, message@),
{
    match platform {
        Platform::VK => {
            let mut ps = vk.to_params();
            if !contains_param(&ps, "message", message) {
                push_param(&mut ps, "message", message);
            }
            push_param(&mut ps, "random_id", "0");
            ps
        },
        Platform::Telegram => {
            let mut ps = tg.to_params();
            if !contains_param(&ps, "text", message) {
                push_param(&mut ps, "text", message);
            }
            ps
        },
    }
}

/// Whether an optional text is absent or empty.
pub open spec fn absent_or_empty(v: Option<String>) -> bool {
    match v {
        Some(s) => s@.len() == 0,
        None => true,
    }
}

/// Whether an optional number is absent or zero.
pub open spec fn absent_or_zero(v: Option<i64>) -> bool {
    match v {
        Some(n) => n == 0,
        None => true,
    }
}

impl MessageBuilder {
    /// The VK parameters of this builder's send: the options' own rendering;
    /// the builder's message where the options carry none; the builder's
    /// destination where the options name none; the zero random id; the
    /// serialized keyboard where the builder has one and the options none;
    /// and the attachment list where one was uploaded.
    pub open spec fn spec_vk_send_params(
        self,
        markup: Option<Seq<char>>,
        attachment: Seq<char>,
    ) -> Seq<(Seq<char>, Seq<char>)> {
        let o = self.vk_options;
        let base = match o {
            Some(o) => o.spec_params(),
            None => Seq::empty(),
        };
        let o_message = match o {
            Some(o) => o.message,
            None => None,
        };
        let o_peer = match o {
            Some(o) => o.peer_id,
            None => None,
        };
        let o_keyboard = match o {
            Some(o) => o.keyboard,
            None => None,
        };
        let s1 = if absent_or_empty(o_message) {
            base.push(("message"@, self.message@))
        } else {
            base
        };
        let s2 = if absent_or_zero(o_peer) {
            s1.push(("peer_id"@, dec_str_int(self.chat_id as int)))
        } else {
            s1
        };
        let s3 = s2.push(("random_id"@, "0"@));
        let s4 = match markup {
            Some(m) => if o_keyboard is None {
                s3.push(("keyboard"@, m))
            } else {
                s3
            },
            None => s3,
        };
        if attachment.len() > 0 {
            s4.push(("attachment"@, attachment))
        } else {
            s4
        }
    }

    /// Builds the VK parameters of this builder's send; the keyboard markup,
    /// where the builder carries a keyboard, arrives already serialized, and
    /// the attachment list already uploaded.
    pub fn vk_send_params(&self, markup: Option<&str>, attachment: &str) -> (ps: Vec<
        (String, String),
    >)
        requires
            markup is Some <==> self.keyboard is Some,
        ensures
            params_view(ps@) == self.spec_vk_send_params(
                match markup {
                    Some(m) => Some(m@),
                    None => None,
                },
                attachment@,
            ),
    {
        let mut ps = match &self.vk_options {
            Some(o) => o.to_params(),
            None => Vec::new(),
        };
        proof {
            assert(params_view(Seq::<(String, String)>::empty()) =~= Seq::<(
                Seq<char>,
                Seq<char>,
            )>::empty());
        }
        let message_missing = match &self.vk_options {
            Some(o) => match &o.message {
                Some(m) => m.as_str().is_empty(),
                None => true,
            },
            None => true,
        };
        if message_missing {
            push_param(&mut ps, "message", self.message.as_str());
        }
        let peer_missing = match &self.vk_options {
            Some(o) => match &o.peer_id {
                Some(p) => *p == 0,
                None => true,
            },
            None => true,
        };
        if peer_missing {
            let peer = i64_to_dec(self.chat_id);
            push_param(&mut ps, "peer_id", peer.as_str());
        }
        push_param(&mut ps, "random_id", "0");
        match markup {
            Some(m) => {
                let keyboard_unset = match &self.vk_options {
                    Some(o) => match &o.keyboard {
                        Some(_) => false,
                        None => true,
                    },
                    None => true,
                };
                if keyboard_unset {
                    push_param(&mut ps, "keyboard", m);
                }
            },
            None => {},
        }
        if !attachment.is_empty() {
            push_param(&mut ps, "attachment", attachment);
        }
        ps
    }

    /// The Telegram parameters of this builder's send: the options' own
    /// rendering; the builder's message where the options carry no text; the
    /// builder's destination where the options name none; the serialized
    /// markup where the builder has a keyboard and the options none; and the
    /// parse mode where one other than the HTML default was chosen.
    pub open spec fn spec_tg_send_params(self, markup: Option<Seq<char>>) -> Seq<
        (Seq<char>, Seq<char>),
    > {
        let o = self.tg_options;
        let base = match o {
            Some(o) => o.spec_params(),
            None => Seq::empty(),
        };
        let o_text = match o {
            Some(o) => o.text,
            None => None,
        };
        let o_chat = match o {
            Some(o) => o.chat_id,
            None => None,
        };
        let o_markup = match o {
            Some(o) => o.reply_markup,
            None => None,
        };
        let s1 = if absent_or_empty(o_text) {
            base.push(("text"@, self.message@))
        } else {
            base
        };
        let s2 = if absent_or_zero(o_chat) {
            s1.push(("chat_id"@, dec_str_int(self.chat_id as int)))
        } else {
            s1
        };
        let s3 = match markup {
            Some(m) => if o_markup is None {
                s2.push(("reply_markup"@, m))
            } else {
                s2
            },
            None => s2,
        };
        match self.parse_mode {
            Some(p) => if p@ == "HTML"@ {
                s3
            } else {
                s3.push(("parse_mode"@, p@))
            },
            None => s3,
        }
    }

    /// Builds the Telegram parameters of this builder's send; the keyboard
    /// markup, where the builder carries a keyboard, arrives already
    /// serialized.
    pub fn tg_send_params(&self, markup: Option<&str>) -> (ps: Vec<(String, String)>)
        requires
            markup is Some <==> self.keyboard is Some,
        ensures
            params_view(ps@) == self.spec_tg_send_params(
                match markup {
                    Some(m) => Some(m@),
                    None => None,
                },
            ),
    {
        let mut ps = match &self.tg_options {
            Some(o) => o.to_params(),
            None => Vec::new(),
        };
        proof {
            assert(params_view(Seq::<(String, String)>::empty()) =~= Seq::<(
                Seq<char>,
                Seq<char>,
            )>::empty());
        }
        let text_missing = match &self.tg_options {
            Some(o) => match &o.text {
                Some(t) => t.as_str().is_empty(),
                None => true,
            },
            None => true,
        };
        if text_missing {
            push_param(&mut ps, "text", self.message.as_str());
        }
        let chat_missing = match &self.tg_options {
            Some(o) => match &o.chat_id {
                Some(c) => *c == 0,
                None => true,
            },
            None => true,
        };
        if chat_missing {
            let chat = i64_to_dec(self.chat_id);
            push_param(&mut ps, "chat_id", chat.as_str());
        }
        match markup {
            Some(m) => {
                let markup_unset = match &self.tg_options {
                    Some(o) => match &o.reply_markup {
                        Some(_) => false,
                        None => true,
                    },
                    None => true,
                };
                if markup_unset {
                    push_param(&mut ps, "reply_markup", m);
                }
            },
            None => {},
        }
        match &self.parse_mode {
            Some(p) => {
                let pv = p.clone();
                if !(pv == "HTML".to_owned()) {
                    push_param(&mut ps, "parse_mode", p.as_str());
                }
            },
            None => {},
        }
        ps
    }
}

/// One entry of a Telegram media group: the kind, the media reference, and
/// the caption, framed as the wire's JSON object text.
pub open spec fn spec_media_entry(kind: FileType, media: Seq<char>, caption: Seq<char>) -> Seq<
    char,
> {
    "{\"type\":\""@ + kind.spec_api_name() + "\",\"media\":\""@ + media + "\",\"caption\":\""@
        + caption + "\"}"@
}

/// Builds one entry of a Telegram media group.
pub fn media_entry(kind: &FileType, media: &str, caption: &str) -> (s: String)
    ensures
        s@ == spec_media_entry(*kind, media@, caption@),
{
    let mut s = "{\"type\":\"".to_owned();
    let kind_name = kind.api_name();
    s.append(kind_name.as_str());
    s.append("\",\"media\":\"");
    s.append(media);
    s.append("\",\"caption\":\"");
    s.append(caption);
    s.append("\"}");
    s
}

/// The media reference of the file at one index of a multi-file send: the
/// kind's lowercase name, the index appended when nonzero.
pub open spec fn spec_attach_name(kind: FileType, index: nat) -> Seq<char> {
    kind.spec_api_name() + if index == 0 {
        Seq::<char>::empty()
    } else {
        crate::text::dec_str(index)
    }
}

/// Builds the media reference name of the file at one index.
pub fn attach_name(kind: &FileType, index: usize) -> (s: String)
    ensures
        s@ == spec_attach_name(*kind, index as nat),
{
    let mut s = kind.api_name();
    if index != 0 {
        let digits = crate::text::u64_to_dec(index as u64);
        s.append(digits.as_str());
    }
    proof {
        assert(s@ =~= spec_attach_name(*kind, index as nat));
    }
    s
}

/// A comma-joined sequence of already-framed entries.
pub open spec fn spec_join_comma(entries: Seq<String>) -> Seq<char>
    decreases entries.len(),
{
    if entries.len() == 0 {
        Seq::empty()
    } else if entries.len() == 1 {
        entries[0]@
    } else {
        entries[0]@ + ","@ + spec_join_comma(entries.drop_first())
    }
}

/// The JSON array text of a media group: the entries joined by commas in
/// brackets.
pub fn media_group_json(entries: &Vec<String>) -> (s: String)
    ensures
        s@ == "["@ + spec_join_comma(entries@) + "]"@,
{
    let mut s = "[".to_owned();
    let n = entries.len();
    let mut i: usize = 0;
    proof {
        assert(entries@.skip(0) =~= entries@);
    }
    while i < n
        invariant
            i <= n,
            n == entries@.len(),
            s@ + spec_join_comma(entries@.skip(i as int)) + "]"@ == "["@ + spec_join_comma(
                entries@,
            ) + "]"@,
        decreases n - i,
    {
        let ghost s_old = s@;
        s.append(entries[i].as_str());
        if i + 1 < n {
            s.append(",");
        }
        proof {
            assert(entries@.skip(i as int)[0] == entries@[i as int]);
            assert(entries@.skip(i as int).drop_first() =~= entries@.skip(i + 1));
            if i + 1 < n {
                assert(s@ + spec_join_comma(entries@.skip(i + 1)) + "]"@ =~= s_old
                    + spec_join_comma(entries@.skip(i as int)) + "]"@);
            } else {
                assert(entries@.skip(i + 1) =~= Seq::<String>::empty());
                assert(s@ + spec_join_comma(entries@.skip(i + 1)) + "]"@ =~= s_old
                    + spec_join_comma(entries@.skip(i as int)) + "]"@);
            }
        }
        i += 1;
    }
    s.append("]");
    proof {
        assert(entries@.skip(n as int) =~= Seq::<String>::empty());
    }
    s
}

} // verus!
