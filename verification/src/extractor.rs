//! Archive-format recognition: file-extension tests and the 7z signature.
use vstd::prelude::*;
use crate::text::ends_with_ci;
use crate::text::str_ends_with_ci;

verus! {

/// Extracts downloaded update archives.
pub struct Extractor;

impl Extractor {
    /// Does the file name end with one of the extensions, ignoring ASCII
    /// case?
    pub fn file_has_extensions(file_name: &str, extensions: &[&str]) -> (r: bool)
        ensures
            r == exists|i: int|
                0 <= i < extensions@.len() && ends_with_ci(file_name@, extensions@[i]@),
    {
        let n = extensions.len();
        let mut i: usize = 0;
        while i < n
            invariant
                n == extensions@.len(),
                0 <= i <= n,
                forall|i0: int| 0 <= i0 < i ==> !ends_with_ci(file_name@, extensions@[i0]@),
            decreases n - i,
        {
            let ext = extensions[i];
            if str_ends_with_ci(file_name, ext) {
                return true;
            }
            i += 1;
        }
        false
    }

    /// The 7z signature: exactly the six magic bytes a 7z archive starts
    /// with.
    pub fn is_7z_magic(magic: &[u8]) -> (r: bool)
        ensures
            r == (magic@ == seq![0x37u8, 0x7au8, 0xbcu8, 0xafu8, 0x27u8, 0x1cu8]),
    {
        let r = magic.len() == 6 && magic[0] == 0x37 && magic[1] == 0x7a && magic[2] == 0xbc
            && magic[3] == 0xaf && magic[4] == 0x27 && magic[5] == 0x1c;
        proof {
            if r {
                assert(magic@ =~= seq![0x37u8, 0x7au8, 0xbcu8, 0xafu8, 0x27u8, 0x1cu8]);
            } else {
                if magic@ == seq![0x37u8, 0x7au8, 0xbcu8, 0xafu8, 0x27u8, 0x1cu8] {
                    assert(magic@.len() == 6);
                    assert(false);
                }
            }
        }
        r
    }
}

} // verus!
