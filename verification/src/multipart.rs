//! Files, file kinds, and the multipart/form-data framing of file uploads:
//! every byte of the request body is pinned down here; only the boundary
//! comes from outside, drawn fresh for each request.

use rand::Rng;
use vstd::prelude::*;
use vstd::string::StrSliceExecFns;
use vstd::utf8::encode_utf8;

use crate::context::Platform;
use crate::text::{dec_str, u64_to_dec};

verus! {

/// A file to upload: its name, raw content, and kind.
#[derive(Debug, Clone)]
pub struct File {
    pub filename: String,
    pub content: Vec<u8>,
    pub ftype: FileType,
}

/// The kind of a file, as the platforms classify uploads.
#[derive(Debug, Clone, Copy, PartialEq, Eq, Structural)]
pub enum FileType {
    Photo,
    Video,
    Audio,
    Document,
    Voice,
    VideoNote,
    Animation,
    Other,
}

impl FileType {
    /// The display name of the kind.
    pub open spec fn spec_name(self) -> Seq<char> {
        match self {
            FileType::Photo => "Photo"@,
            FileType::Video => "Video"@,
            FileType::Audio => "Audio"@,
            FileType::Document => "Document"@,
            FileType::Voice => "Voice"@,
            FileType::VideoNote => "Video_Note"@,
            FileType::Animation => "Animation"@,
            FileType::Other => "Other"@,
        }
    }

    /// The display name of the kind.
    pub fn as_string(&self) -> (s: String)
        ensures
            s@ == self.spec_name(),
    {
        match self {
            FileType::Photo => "Photo".to_owned(),
            FileType::Video => "Video".to_owned(),
            FileType::Audio => "Audio".to_owned(),
            FileType::Document => "Document".to_owned(),
            FileType::Voice => "Voice".to_owned(),
            FileType::VideoNote => "Video_Note".to_owned(),
            FileType::Animation => "Animation".to_owned(),
            FileType::Other => "Other".to_owned(),
        }
    }

    /// The lowercase API name of the kind: the display name lowercased, the
    /// underscore kept.
    pub open spec fn spec_api_name(self) -> Seq<char> {
        match self {
            FileType::Photo => "photo"@,
            FileType::Video => "video"@,
            FileType::Audio => "audio"@,
            FileType::Document => "document"@,
            FileType::Voice => "voice"@,
            FileType::VideoNote => "video_note"@,
            FileType::Animation => "animation"@,
            FileType::Other => "other"@,
        }
    }

    /// The lowercase API name of the kind.
    pub fn api_name(&self) -> (s: String)
        ensures
            s@ == self.spec_api_name(),
    {
        match self {
            FileType::Photo => "photo".to_owned(),
            FileType::Video => "video".to_owned(),
            FileType::Audio => "audio".to_owned(),
            FileType::Document => "document".to_owned(),
            FileType::Voice => "voice".to_owned(),
            FileType::VideoNote => "video_note".to_owned(),
            FileType::Animation => "animation".to_owned(),
            FileType::Other => "other".to_owned(),
        }
    }

    /// The Telegram method that sends one file of this kind: `send` and the
    /// display name with the underscore dropped.
    pub open spec fn spec_tg_send_method(self) -> Seq<char> {
        match self {
            FileType::Photo => "sendPhoto"@,
            FileType::Video => "sendVideo"@,
            FileType::Audio => "sendAudio"@,
            FileType::Document => "sendDocument"@,
            FileType::Voice => "sendVoice"@,
            FileType::VideoNote => "sendVideoNote"@,
            FileType::Animation => "sendAnimation"@,
            FileType::Other => "sendOther"@,
        }
    }

    /// The Telegram method that sends one file of this kind.
    pub fn tg_send_method(&self) -> (s: String)
        ensures
            s@ == self.spec_tg_send_method(),
    {
        match self {
            FileType::Photo => "sendPhoto".to_owned(),
            FileType::Video => "sendVideo".to_owned(),
            FileType::Audio => "sendAudio".to_owned(),
            FileType::Document => "sendDocument".to_owned(),
            FileType::Voice => "sendVoice".to_owned(),
            FileType::VideoNote => "sendVideoNote".to_owned(),
            FileType::Animation => "sendAnimation".to_owned(),
            FileType::Other => "sendOther".to_owned(),
        }
    }

    /// The multipart field name base: the display name with the underscore
    /// dropped, lowercased.
    pub open spec fn spec_field_base(self) -> Seq<char> {
        match self {
            FileType::Photo => "photo"@,
            FileType::Video => "video"@,
            FileType::Audio => "audio"@,
            FileType::Document => "document"@,
            FileType::Voice => "voice"@,
            FileType::VideoNote => "videonote"@,
            FileType::Animation => "animation"@,
            FileType::Other => "other"@,
        }
    }

    /// The kind a downloaded file is classified as, from the media type of
    /// its content type.
    pub fn of_media_type(media_type: &str) -> (t: FileType)
        ensures
            media_type@ == "image"@ ==> t == FileType::Photo,
            media_type@ == "video"@ ==> t == FileType::Video,
            media_type@ == "audio"@ ==> t == FileType::Audio,
            media_type@ != "image"@ && media_type@ != "video"@ && media_type@ != "audio"@
                ==> t == FileType::Document,
    {
        proof {
            reveal_strlit("image");
            reveal_strlit("video");
            reveal_strlit("audio");
            assert("image"@[0] == 'i' && "video"@[0] == 'v' && "audio"@[0] == 'a');
        }
        let m = media_type.to_owned();
        if m == "image".to_owned() {
            FileType::Photo
        } else if m == "video".to_owned() {
            FileType::Video
        } else if m == "audio".to_owned() {
            FileType::Audio
        } else {
            FileType::Document
        }
    }
}

/// The name a downloaded file gets: a placeholder base and the subtype of
/// the content type as the extension.
pub fn download_filename(subtype: &str) -> (s: String)
    ensures
        s@ == "something."@ + subtype@,
{
    let mut s = "something.".to_owned();
    s.append(subtype);
    s
}

/// The multipart field name of the file at one index: `file` for VK, the
/// kind's field base for Telegram, with the index appended when nonzero.
pub open spec fn spec_field_name(ftype: FileType, platform: Platform, index: nat) -> Seq<char> {
    (match platform {
        Platform::VK => "file"@,
        Platform::Telegram => ftype.spec_field_base(),
    }) + if index == 0 {
        Seq::<char>::empty()
    } else {
        dec_str(index)
    }
}

/// Builds the multipart field name of the file at one index.
pub fn field_name(ftype: &FileType, platform: &Platform, index: usize) -> (s: String)
    ensures
        s@ == spec_field_name(*ftype, *platform, index as nat),
{
    let mut s = match platform {
        Platform::VK => "file".to_owned(),
        Platform::Telegram => {
            match ftype {
                FileType::Photo => "photo".to_owned(),
                FileType::Video => "video".to_owned(),
                FileType::Audio => "audio".to_owned(),
                FileType::Document => "document".to_owned(),
                FileType::Voice => "voice".to_owned(),
                FileType::VideoNote => "videonote".to_owned(),
                FileType::Animation => "animation".to_owned(),
                FileType::Other => "other".to_owned(),
            }
        },
    };
    if index != 0 {
        let digits = u64_to_dec(index as u64);
        s.append(digits.as_str());
        proof {
            assert(s@ =~= spec_field_name(*ftype, *platform, index as nat));
        }
    } else {
        proof {
            assert(s@ =~= spec_field_name(*ftype, *platform, index as nat));
        }
    }
    s
}

/// The bytes of one multipart part: the boundary line, the content
/// disposition with field name and file name, a blank line, the raw content,
/// a line break, and — for the last part — the closing boundary line.
pub open spec fn spec_file_data(
    boundary: Seq<char>,
    name: Seq<char>,
    filename: Seq<char>,
    content: Seq<u8>,
    is_last: bool,
) -> Seq<u8> {
    encode_utf8("--"@) + encode_utf8(boundary) + encode_utf8("\r\n"@) + encode_utf8(
        "Content-Disposition: form-data; name=\""@,
    ) + encode_utf8(name) + encode_utf8("\"; filename=\""@) + encode_utf8(filename) + encode_utf8(
        "\"\r\n"@,
    ) + encode_utf8("\r\n"@) + content + encode_utf8("\r\n"@) + (if is_last {
        encode_utf8("\r\n--"@) + encode_utf8(boundary)
    } else {
        Seq::<u8>::empty()
    })
}

/// Appends a string's UTF-8 bytes to a byte vector.
fn push_str_bytes(out: &mut Vec<u8>, s: &str)
    ensures
        final(out)@ == old(out)@ + encode_utf8(s@),
{
    let mut bytes = s.as_bytes_vec();
    out.append(&mut bytes);
}

/// Frames one file as a multipart part.
pub fn file_data(file: &File, boundary: &str, name: &str, is_last: bool) -> (data: Vec<u8>)
    ensures
        data@ == spec_file_data(boundary@, name@, file.filename@, file.content@, is_last),
{
    let mut data: Vec<u8> = Vec::new();
    push_str_bytes(&mut data, "--");
    push_str_bytes(&mut data, boundary);
    push_str_bytes(&mut data, "\r\n");
    push_str_bytes(&mut data, "Content-Disposition: form-data; name=\"");
    push_str_bytes(&mut data, name);
    push_str_bytes(&mut data, "\"; filename=\"");
    push_str_bytes(&mut data, file.filename.as_str());
    push_str_bytes(&mut data, "\"\r\n");
    push_str_bytes(&mut data, "\r\n");
    let ghost head = data@;
    let mut content = file.content.clone();
    proof {
        assert(content@ =~= file.content@);
    }
    data.append(&mut content);
    push_str_bytes(&mut data, "\r\n");
    if is_last {
        push_str_bytes(&mut data, "\r\n--");
        push_str_bytes(&mut data, boundary);
    }
    proof {
        assert(data@ =~= spec_file_data(boundary@, name@, file.filename@, file.content@, is_last));
    }
    data
}

/// The parts of a file list, in order: each file framed under its field name
/// for its position, the last one closing the body.
pub open spec fn spec_multipart_files(
    files: Seq<File>,
    boundary: Seq<char>,
    platform: Platform,
    index: nat,
) -> Seq<u8>
    decreases files.len(),
{
    if files.len() == 0 {
        Seq::empty()
    } else {
        spec_file_data(
            boundary,
            spec_field_name(files[0].ftype, platform, index),
            files[0].filename@,
            files[0].content@,
            files.len() == 1,
        ) + spec_multipart_files(files.drop_first(), boundary, platform, index + 1)
    }
}

/// The whole multipart body of a file upload: every part, then the final
/// double dash.
pub open spec fn spec_multipart_body(
    files: Seq<File>,
    boundary: Seq<char>,
    platform: Platform,
) -> Seq<u8> {
    spec_multipart_files(files, boundary, platform, 0) + encode_utf8("--"@)
}

/// Frames a file list as a complete multipart body under the given boundary.
pub fn multipart_body(files: &Vec<File>, boundary: &str, platform: &Platform) -> (body: Vec<u8>)
    ensures
        body@ == spec_multipart_body(files@, boundary@, *platform),
{
    let mut body: Vec<u8> = Vec::new();
    let n = files.len();
    let mut i: usize = 0;
    proof {
        assert(files@.skip(0) =~= files@);
        assert(body@ + spec_multipart_files(files@, boundary@, *platform, 0)
            =~= spec_multipart_files(files@, boundary@, *platform, 0));
    }
    while i < n
        invariant
            i <= n,
            n == files@.len(),
            spec_multipart_files(files@, boundary@, *platform, 0) == body@
                + spec_multipart_files(files@.skip(i as int), boundary@, *platform, i as nat),
        decreases n - i,
    {
        let name = field_name(&files[i].ftype, platform, i);
        let is_last = i == n - 1;
        let mut part = file_data(&files[i], boundary, name.as_str(), is_last);
        proof {
            assert(files@.skip(i as int)[0] == files@[i as int]);
            assert(files@.skip(i as int).drop_first() =~= files@.skip(i + 1));
            assert(files@.skip(i as int).len() == 1 <==> i as int == files@.len() - 1);
        }
        body.append(&mut part);
        i += 1;
    }
    proof {
        assert(files@.skip(n as int) =~= Seq::<File>::empty());
    }
    push_str_bytes(&mut body, "--");
    body
}

/// Relies on rand's thread-local generator with the alphanumeric
/// distribution: a boundary of exactly thirty ASCII letters or digits, drawn
/// fresh for each call — nothing relates one call's boundary to another's.
#[verifier::external_body]
pub(crate) fn random_boundary() -> (boundary: String)
    ensures
        boundary@.len() == 30,
        forall|i: int|
            0 <= i < boundary@.len() ==> (('a' <= #[trigger] boundary@[i] <= 'z') || ('A'
                <= boundary@[i] <= 'Z') || ('0' <= boundary@[i] <= '9')),
{
    rand::thread_rng().sample_iter(&rand::distributions::Alphanumeric).take(30).map(
        char::from,
    ).collect()
}

/// Frames a file list under a boundary drawn fresh for this request: the
/// body is exactly the multipart framing of the files under the returned
/// boundary, whatever boundary came back.
pub fn multipart_request(files: &Vec<File>, platform: &Platform) -> (r: (String, Vec<u8>))
    ensures
        r.0@.len() == 30,
        r.1@ == spec_multipart_body(files@, r.0@, *platform),
{
    let boundary = random_boundary();
    let body = multipart_body(files, boundary.as_str(), platform);
    (boundary, body)
}

} // verus!
