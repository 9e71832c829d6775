use vstd::prelude::*;
use crate::error::ApiError;
use crate::image::{Image, ImageError, validation};
use crate::text::{chars_of, contains, contains_spec, is_whitespace, is_whitespace_spec};

verus! {

/// The bytes that the base64 decoder of the `base64` crate (standard alphabet, with
/// padding) makes of `text`, or `None` where it refuses the text.
pub uninterp spec fn base64_decoded(text: Seq<u8>) -> Option<Seq<u8>>;

/// Relies on base64::decode: the bytes it decodes from `text`, or its refusal.
#[verifier::external_body]
fn decode_base64(text: &[u8]) -> (r: Option<Vec<u8>>)
    requires
        text@.len() + 3 <= usize::MAX,
    ensures
        match r {
            Some(v) => base64_decoded(text@) == Some(v@),
            None => base64_decoded(text@) is None,
        },
{
    base64::decode(text).ok()
}

/// The base64 text carried by `data`: its characters with whitespace dropped, as
/// bytes. `None` where a character that remains is not ASCII (no base64 text holds one).
pub open spec fn payload_text(data: Seq<char>) -> Option<Seq<u8>>
    decreases data.len(),
{
    if data.len() == 0 {
        Some(Seq::empty())
    } else {
        match payload_text(data.drop_last()) {
            None => None,
            Some(t) => {
                let c = data.last();
                if is_whitespace_spec(c) {
                    Some(t)
                } else if (c as u32) < 128 {
                    Some(t.push((c as u32) as u8))
                } else {
                    None
                }
            },
        }
    }
}

/// The bytes that an inline payload decodes to, or `None` where it is not base64.
pub open spec fn decoded_payload(data: Seq<char>) -> Option<Seq<u8>> {
    match payload_text(data) {
        None => None,
        Some(t) => base64_decoded(t),
    }
}

proof fn lemma_payload_text_len(data: Seq<char>)
    ensures
        payload_text(data) matches Some(t) ==> t.len() <= data.len(),
    decreases data.len(),
{
    if data.len() > 0 {
        lemma_payload_text_len(data.drop_last());
    }
}

/// Whether a URL names the loopback host, by `localhost` or by `127.0.0.1`.
pub open spec fn is_loopback_url(url: Seq<char>) -> bool {
    contains_spec(url, "localhost"@) || contains_spec(url, "127.0.0.1"@)
}

/// Whether `r` is what an item named `name` with bytes `bytes` becomes: the image
/// validated from them, or the validation's rejection of them.
pub open spec fn image_outcome(r: Result<Image, ApiError>, name: Seq<char>, bytes: Seq<u8>) -> bool {
    match r {
        Ok(img) => {
            &&& validation(bytes) == Ok::<_, ImageError>(img.spec_format())
            &&& img.spec_name() == name
            &&& img.spec_data() == bytes
        },
        Err(e) => exists|ie: ImageError|
            validation(bytes) == Err::<crate::format::ImageFormat, _>(ie) && e == ApiError::Image(ie),
    }
}

/// Validates `bytes` as an image named `name`.
fn validate(name: String, bytes: Vec<u8>) -> (r: Result<Image, ApiError>)
    ensures
        image_outcome(r, name@, bytes@),
{
    match Image::create(name, bytes) {
        Ok(img) => Ok(img),
        Err(e) => Err(ApiError::Image(e)),
    }
}

/// One item of an inline batch: a name and its bytes as base64 text.
#[derive(Debug, Default)]
pub struct JsonMessage {
    pub name: String,
    pub data: String,
}

impl JsonMessage {
    /// The bytes of the payload: whitespace is dropped and the rest decoded as base64.
    pub fn decode_data(&self) -> (r: Result<Vec<u8>, ApiError>)
        requires
            self.data@.len() <= isize::MAX,
        ensures
            match decoded_payload(self.data@) {
                Some(b) => (r matches Ok(v) && v@ == b),
                None => r matches Err(ApiError::Base64Decoding),
            },
    {
        let chars = chars_of(self.data.as_str());
        let mut text: Vec<u8> = Vec::new();
        let mut ascii = true;
        let mut i: usize = 0;
        while i < chars.len()
            invariant
                chars@ == self.data@,
                i <= chars@.len(),
                payload_text(chars@.take(i as int)) == (if ascii {
                    Some(text@)
                } else {
                    None::<Seq<u8>>
                }),
            decreases chars@.len() - i,
        {
            let c = chars[i];
            proof {
                assert(chars@.take(i + 1 as int).drop_last() =~= chars@.take(i as int));
            }
            if ascii && !is_whitespace(c) {
                if (c as u32) < 128 {
                    text.push((c as u32) as u8);
                } else {
                    ascii = false;
                }
            }
            i = i + 1;
        }
        proof {
            assert(chars@.take(i as int) =~= self.data@);
            lemma_payload_text_len(self.data@);
        }
        if !ascii {
            return Err(ApiError::Base64Decoding);
        }
        match decode_base64(text.as_slice()) {
            Some(v) => Ok(v),
            None => Err(ApiError::Base64Decoding),
        }
    }

    /// Decodes the payload and validates the bytes as an image named after the item.
    pub fn try_into_image(self) -> (r: Result<Image, ApiError>)
        requires
            self.data@.len() <= isize::MAX,
        ensures
            match decoded_payload(self.data@) {
                Some(b) => image_outcome(r, self.name@, b),
                None => r matches Err(ApiError::Base64Decoding),
            },
    {
        let bytes = self.decode_data();
        match bytes {
            Ok(b) => validate(self.name, b),
            Err(e) => Err(e),
        }
    }
}

/// The result of every item of an inline batch, in the order of the items.
pub fn extract_json(messages: Vec<JsonMessage>) -> (r: Vec<Result<Image, ApiError>>)
    requires
        forall|i: int| 0 <= i < messages@.len() ==> (#[trigger] messages@[i]).data@.len() <= isize::MAX,
    ensures
        r@.len() == messages@.len(),
        forall|i: int|
            0 <= i < r@.len() ==> match decoded_payload(messages@[i].data@) {
                Some(b) => image_outcome(#[trigger] r@[i], messages@[i].name@, b),
                None => r@[i] matches Err(ApiError::Base64Decoding),
            },
{
    let ghost orig = messages@;
    let mut rest = messages;
    let mut out: Vec<Result<Image, ApiError>> = Vec::new();
    while rest.len() > 0
        invariant
            out@.len() + rest@.len() == orig.len(),
            rest@ == orig.skip(out@.len() as int),
            forall|i: int| 0 <= i < orig.len() ==> (#[trigger] orig[i]).data@.len() <= isize::MAX,
            forall|i: int|
                0 <= i < out@.len() ==> match decoded_payload(orig[i].data@) {
                    Some(b) => image_outcome(#[trigger] out@[i], orig[i].name@, b),
                    None => out@[i] matches Err(ApiError::Base64Decoding),
                },
        decreases rest@.len(),
    {
        let m = rest.remove(0);
        proof {
            assert(m == orig[out@.len() as int]);
            assert(rest@ =~= orig.skip(out@.len() + 1 as int));
        }
        let item = m.try_into_image();
        out.push(item);
    }
    out
}

/// One item of a URL batch: a name and the address its bytes are fetched from.
#[derive(Debug, Default)]
pub struct UrlMessage {
    pub name: String,
    pub url: String,
}

impl UrlMessage {
    /// The address to fetch, or `LocalhostUrl` where it names the loopback host, in
    /// which case nothing is to be fetched.
    pub fn fetch_target(&self) -> (r: Result<&str, ApiError>)
        ensures
            is_loopback_url(self.url@) ==> r matches Err(ApiError::LocalhostUrl),
            !is_loopback_url(self.url@) ==> (r matches Ok(u) && u@ == self.url@),
    {
        let url = chars_of(self.url.as_str());
        let localhost = chars_of("localhost");
        let loopback = chars_of("127.0.0.1");
        if contains(&url, &localhost) || contains(&url, &loopback) {
            Err(ApiError::LocalhostUrl)
        } else {
            Ok(self.url.as_str())
        }
    }

    /// The item's image once the fetch of `fetch_target` has answered: its body, or
    /// the message of the failure. A loopback address is refused whatever the answer.
    pub fn try_into_image(self, fetched: Result<Vec<u8>, String>) -> (r: Result<Image, ApiError>)
        ensures
            is_loopback_url(self.url@) ==> r matches Err(ApiError::LocalhostUrl),
            !is_loopback_url(self.url@) ==> match fetched {
                Ok(body) => image_outcome(r, self.name@, body@),
                Err(m) => (r matches Err(ApiError::FetchFailed(n)) && n@ == m@),
            },
    {
        match self.fetch_target() {
            Err(e) => Err(e),
            Ok(_) => match fetched {
                Ok(body) => validate(self.name, body),
                Err(m) => Err(ApiError::FetchFailed(m)),
            },
        }
    }
}

/// One field of a multipart upload, read chunk by chunk: the file name it declares,
/// the bytes read so far, and whether its stream broke off.
#[derive(Debug)]
pub struct MultipartField {
    pub filename: Option<String>,
    pub data: Vec<u8>,
    pub broken: bool,
}

impl MultipartField {
    /// A field that declares `filename` and has no bytes read yet.
    pub fn new(filename: Option<String>) -> (r: MultipartField)
        ensures
            r.filename == filename,
            r.data@ == Seq::<u8>::empty(),
            !r.broken,
    {
        MultipartField { filename, data: Vec::new(), broken: false }
    }

    /// Appends the next chunk of the field's stream.
    pub fn push_chunk(&mut self, chunk: &[u8])
        ensures
            final(self).data@ == old(self).data@ + chunk@,
            final(self).filename == old(self).filename,
            final(self).broken == old(self).broken,
    {
        let mut i: usize = 0;
        while i < chunk.len()
            invariant
                i <= chunk@.len(),
                self.data@ == old(self).data@ + chunk@.take(i as int),
                self.filename == old(self).filename,
                self.broken == old(self).broken,
            decreases chunk@.len() - i,
        {
            self.data.push(chunk[i]);
            i = i + 1;
            proof {
                assert(chunk@.take(i as int) =~= chunk@.take(i - 1 as int).push(chunk@[i - 1]));
            }
        }
        proof {
            assert(chunk@.take(i as int) =~= chunk@);
        }
    }

    /// Records that the field's stream failed before its end.
    pub fn mark_broken(&mut self)
        ensures
            final(self).broken,
            final(self).data@ == old(self).data@,
            final(self).filename == old(self).filename,
    {
        self.broken = true;
    }

    /// The field's image: `MalformedPart` where it declares no file name or its stream
    /// broke off, else its bytes validated under the file name.
    pub fn try_into_image(self) -> (r: Result<Image, ApiError>)
        ensures
            (self.broken || self.filename is None) ==> r matches Err(ApiError::MalformedPart),
            (!self.broken && self.filename is Some) ==> image_outcome(
                r,
                self.filename->0@,
                self.data@,
            ),
    {
        if self.broken {
            return Err(ApiError::MalformedPart);
        }
        match self.filename {
            None => Err(ApiError::MalformedPart),
            Some(name) => validate(name, self.data),
        }
    }
}

} // verus!
