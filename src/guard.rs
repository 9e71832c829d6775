use vstd::prelude::*;

verus! {

/// The ASCII bytes of `multipart/form-data`.
pub open spec fn multipart_prefix() -> Seq<u8> {
    seq![109u8, 117, 108, 116, 105, 112, 97, 114, 116, 47, 102, 111, 114, 109, 45, 100, 97, 116, 97]
}

/// Whether `value` begins with `prefix`.
pub open spec fn starts_with_spec(value: Seq<u8>, prefix: Seq<u8>) -> bool {
    prefix.len() <= value.len() && value.take(prefix.len() as int) == prefix
}

/// Admits a request whose `content-type` header declares a multipart form. The header
/// carries a generated boundary after the type, so only its beginning is compared.
#[derive(Clone, Copy, Debug)]
pub struct MultipartTypeGuard();

impl MultipartTypeGuard {
    /// Whether a request with this `content-type` header value (`None` where the
    /// header is absent) is a multipart upload.
    pub fn check(&self, content_type: Option<&[u8]>) -> (r: bool)
        ensures
            match content_type {
                None => !r,
                Some(v) => r == starts_with_spec(v@, multipart_prefix()),
            },
    {
        let required: [u8; 19] = [
            109u8, 117, 108, 116, 105, 112, 97, 114, 116, 47, 102, 111, 114, 109, 45, 100, 97, 116, 97,
        ];
        assert(required@ =~= multipart_prefix());
        match content_type {
            None => false,
            Some(v) => {
                if v.len() < required.len() {
                    return false;
                }
                let mut i: usize = 0;
                while i < required.len()
                    invariant
                        required@ == multipart_prefix(),
                        content_type == Some(v),
                        required@.len() <= v@.len(),
                        i <= required@.len(),
                        v@.take(i as int) == required@.take(i as int),
                    decreases required@.len() - i,
                {
                    if v[i] != required[i] {
                        assert(v@.take(required@.len() as int)[i as int] == v@[i as int]);
                        assert(v@.take(required@.len() as int) != required@);
                        return false;
                    }
                    assert(v@.take(i + 1 as int) =~= v@.take(i as int).push(v@[i as int]));
                    assert(required@.take(i + 1 as int) =~= required@.take(i as int).push(required@[i as int]));
                    i = i + 1;
                }
                assert(required@.take(i as int) =~= required@);
                true
            },
        }
    }
}

} // verus!
