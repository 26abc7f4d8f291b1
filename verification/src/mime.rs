//! The static extension-to-MIME table. Unknown extensions map to
//! `application/octet-stream`.

use vstd::prelude::*;

use crate::bytes_util::bytes_eq;

verus! {

/// The `Content-Type` value for a file extension.
pub open spec fn mime_of(ext: Seq<u8>) -> Seq<u8> {
    if ext == seq![97u8, 97u8, 99u8] {  // aac
        seq![97u8, 117u8, 100u8, 105u8, 111u8, 47u8, 97u8, 97u8, 99u8]  // audio/aac
    } else if ext == seq![97u8, 98u8, 119u8] {  // abw
        seq![97u8, 112u8, 112u8, 108u8, 105u8, 99u8, 97u8, 116u8, 105u8, 111u8, 110u8, 47u8, 120u8, 45u8, 97u8, 98u8, 105u8, 119u8, 111u8, 114u8, 100u8]  // application/x-abiword
    } else if ext == seq![97u8, 114u8, 99u8] {  // arc
        seq![97u8, 112u8, 112u8, 108u8, 105u8, 99u8, 97u8, 116u8, 105u8, 111u8, 110u8, 47u8, 120u8, 45u8, 102u8, 114u8, 101u8, 101u8, 97u8, 114u8, 99u8]  // application/x-freearc
    } else if ext == seq![97u8, 118u8, 105u8] {  // avi
        seq![118u8, 105u8, 100u8, 101u8, 111u8, 47u8, 120u8, 45u8, 109u8, 115u8, 118u8, 105u8, 100u8, 101u8, 111u8]  // video/x-msvideo
    } else if ext == seq![97u8, 122u8, 119u8] {  // azw
        seq![97u8, 112u8, 112u8, 108u8, 105u8, 99u8, 97u8, 116u8, 105u8, 111u8, 110u8, 47u8, 118u8, 110u8, 100u8, 46u8, 97u8, 109u8, 97u8, 122u8, 111u8, 110u8, 46u8, 101u8, 98u8, 111u8, 111u8, 107u8]  // application/vnd.amazon.ebook
    } else if ext == seq![98u8, 105u8, 110u8] {  // bin
        seq![97u8, 112u8, 112u8, 108u8, 105u8, 99u8, 97u8, 116u8, 105u8, 111u8, 110u8, 47u8, 111u8, 99u8, 116u8, 101u8, 116u8, 45u8, 115u8, 116u8, 114u8, 101u8, 97u8, 109u8]  // application/octet-stream
    } else if ext == seq![98u8, 109u8, 112u8] {  // bmp
        seq![105u8, 109u8, 97u8, 103u8, 101u8, 47u8, 98u8, 109u8, 112u8]  // image/bmp
    } else if ext == seq![98u8, 122u8] {  // bz
        seq![97u8, 112u8, 112u8, 108u8, 105u8, 99u8, 97u8, 116u8, 105u8, 111u8, 110u8, 47u8, 120u8, 45u8, 98u8, 122u8, 105u8, 112u8]  // application/x-bzip
    } else if ext == seq![98u8, 122u8, 50u8] {  // bz2
        seq![97u8, 112u8, 112u8, 108u8, 105u8, 99u8, 97u8, 116u8, 105u8, 111u8, 110u8, 47u8, 120u8, 45u8, 98u8, 122u8, 105u8, 112u8, 50u8]  // application/x-bzip2
    } else if ext == seq![99u8, 115u8, 104u8] {  // csh
        seq![97u8, 112u8, 112u8, 108u8, 105u8, 99u8, 97u8, 116u8, 105u8, 111u8, 110u8, 47u8, 120u8, 45u8, 99u8, 115u8, 104u8]  // application/x-csh
    } else if ext == seq![99u8, 115u8, 115u8] {  // css
        seq![116u8, 101u8, 120u8, 116u8, 47u8, 99u8, 115u8, 115u8]  // text/css
    } else if ext == seq![99u8, 115u8, 118u8] {  // csv
        seq![116u8, 101u8, 120u8, 116u8, 47u8, 99u8, 115u8, 118u8]  // text/csv
    } else if ext == seq![100u8, 111u8, 99u8] {  // doc
        seq![97u8, 112u8, 112u8, 108u8, 105u8, 99u8, 97u8, 116u8, 105u8, 111u8, 110u8, 47u8, 109u8, 115u8, 119u8, 111u8, 114u8, 100u8]  // application/msword
    } else if ext == seq![100u8, 111u8, 99u8, 120u8] {  // docx
        seq![97u8, 112u8, 112u8, 108u8, 105u8, 99u8, 97u8, 116u8, 105u8, 111u8, 110u8, 47u8, 118u8, 110u8, 100u8, 46u8, 111u8, 112u8, 101u8, 110u8, 120u8, 109u8, 108u8, 102u8, 111u8, 114u8, 109u8, 97u8, 116u8, 115u8, 45u8, 111u8, 102u8, 102u8, 105u8, 99u8, 101u8, 100u8, 111u8, 99u8, 117u8, 109u8, 101u8, 110u8, 116u8, 46u8, 119u8, 111u8, 114u8, 100u8, 112u8, 114u8, 111u8, 99u8, 101u8, 115u8, 115u8, 105u8, 110u8, 103u8, 109u8, 108u8, 46u8, 100u8, 111u8, 99u8, 117u8, 109u8, 101u8, 110u8, 116u8]  // application/vnd.openxmlformats-officedocument.wordprocessingml.document
    } else if ext == seq![101u8, 111u8, 116u8] {  // eot
        seq![97u8, 112u8, 112u8, 108u8, 105u8, 99u8, 97u8, 116u8, 105u8, 111u8, 110u8, 47u8, 118u8, 110u8, 100u8, 46u8, 109u8, 115u8, 45u8, 102u8, 111u8, 110u8, 116u8, 111u8, 98u8, 106u8, 101u8, 99u8, 116u8]  // application/vnd.ms-fontobject
    } else if ext == seq![101u8, 112u8, 117u8, 98u8] {  // epub
        seq![97u8, 112u8, 112u8, 108u8, 105u8, 99u8, 97u8, 116u8, 105u8, 111u8, 110u8, 47u8, 101u8, 112u8, 117u8, 98u8, 43u8, 122u8, 105u8, 112u8]  // application/epub+zip
    } else if ext == seq![103u8, 105u8, 102u8] {  // gif
        seq![105u8, 109u8, 97u8, 103u8, 101u8, 47u8, 103u8, 105u8, 102u8]  // image/gif
    } else if ext == seq![104u8, 116u8, 109u8] {  // htm
        seq![116u8, 101u8, 120u8, 116u8, 47u8, 104u8, 116u8, 109u8, 108u8]  // text/html
    } else if ext == seq![104u8, 116u8, 109u8, 108u8] {  // html
        seq![116u8, 101u8, 120u8, 116u8, 47u8, 104u8, 116u8, 109u8, 108u8]  // text/html
    } else if ext == seq![105u8, 99u8, 111u8] {  // ico
        seq![105u8, 109u8, 97u8, 103u8, 101u8, 47u8, 118u8, 110u8, 100u8, 46u8, 109u8, 105u8, 99u8, 114u8, 111u8, 115u8, 111u8, 102u8, 116u8, 46u8, 105u8, 99u8, 111u8, 110u8]  // image/vnd.microsoft.icon
    } else if ext == seq![105u8, 99u8, 115u8] {  // ics
        seq![116u8, 101u8, 120u8, 116u8, 47u8, 99u8, 97u8, 108u8, 101u8, 110u8, 100u8, 97u8, 114u8]  // text/calendar
    } else if ext == seq![106u8, 97u8, 114u8] {  // jar
        seq![97u8, 112u8, 112u8, 108u8, 105u8, 99u8, 97u8, 116u8, 105u8, 111u8, 110u8, 47u8, 106u8, 97u8, 118u8, 97u8, 45u8, 97u8, 114u8, 99u8, 104u8, 105u8, 118u8, 101u8]  // application/java-archive
    } else if ext == seq![106u8, 112u8, 101u8, 103u8] {  // jpeg
        seq![105u8, 109u8, 97u8, 103u8, 101u8, 47u8, 106u8, 112u8, 101u8, 103u8]  // image/jpeg
    } else if ext == seq![106u8, 112u8, 103u8] {  // jpg
        seq![105u8, 109u8, 97u8, 103u8, 101u8, 47u8, 106u8, 112u8, 101u8, 103u8]  // image/jpeg
    } else if ext == seq![106u8, 115u8] {  // js
        seq![116u8, 101u8, 120u8, 116u8, 47u8, 106u8, 97u8, 118u8, 97u8, 115u8, 99u8, 114u8, 105u8, 112u8, 116u8]  // text/javascript
    } else if ext == seq![106u8, 115u8, 111u8, 110u8] {  // json
        seq![97u8, 112u8, 112u8, 108u8, 105u8, 99u8, 97u8, 116u8, 105u8, 111u8, 110u8, 47u8, 106u8, 115u8, 111u8, 110u8]  // application/json
    } else if ext == seq![109u8, 106u8, 115u8] {  // mjs
        seq![116u8, 101u8, 120u8, 116u8, 47u8, 106u8, 97u8, 118u8, 97u8, 115u8, 99u8, 114u8, 105u8, 112u8, 116u8]  // text/javascript
    } else if ext == seq![109u8, 112u8, 51u8] {  // mp3
        seq![97u8, 117u8, 100u8, 105u8, 111u8, 47u8, 109u8, 112u8, 101u8, 103u8]  // audio/mpeg
    } else if ext == seq![109u8, 112u8, 101u8, 103u8] {  // mpeg
        seq![118u8, 105u8, 100u8, 101u8, 111u8, 47u8, 109u8, 112u8, 101u8, 103u8]  // video/mpeg
    } else if ext == seq![109u8, 112u8, 107u8, 103u8] {  // mpkg
        seq![97u8, 112u8, 112u8, 108u8, 105u8, 99u8, 97u8, 116u8, 105u8, 111u8, 110u8, 47u8, 118u8, 110u8, 100u8, 46u8, 97u8, 112u8, 112u8, 108u8, 101u8, 46u8, 105u8, 110u8, 115u8, 116u8, 97u8, 108u8, 108u8, 101u8, 114u8, 43u8, 120u8, 109u8, 108u8]  // application/vnd.apple.installer+xml
    } else if ext == seq![111u8, 100u8, 112u8] {  // odp
        seq![97u8, 112u8, 112u8, 108u8, 105u8, 99u8, 97u8, 116u8, 105u8, 111u8, 110u8, 47u8, 118u8, 110u8, 100u8, 46u8, 111u8, 97u8, 115u8, 105u8, 115u8, 46u8, 111u8, 112u8, 101u8, 110u8, 100u8, 111u8, 99u8, 117u8, 109u8, 101u8, 110u8, 116u8, 46u8, 112u8, 114u8, 101u8, 115u8, 101u8, 110u8, 116u8, 97u8, 116u8, 105u8, 111u8, 110u8]  // application/vnd.oasis.opendocument.presentation
    } else if ext == seq![111u8, 100u8, 115u8] {  // ods
        seq![97u8, 112u8, 112u8, 108u8, 105u8, 99u8, 97u8, 116u8, 105u8, 111u8, 110u8, 47u8, 118u8, 110u8, 100u8, 46u8, 111u8, 97u8, 115u8, 105u8, 115u8, 46u8, 111u8, 112u8, 101u8, 110u8, 100u8, 111u8, 99u8, 117u8, 109u8, 101u8, 110u8, 116u8, 46u8, 115u8, 112u8, 114u8, 101u8, 97u8, 100u8, 115u8, 104u8, 101u8, 101u8, 116u8]  // application/vnd.oasis.opendocument.spreadsheet
    } else if ext == seq![111u8, 100u8, 116u8] {  // odt
        seq![97u8, 112u8, 112u8, 108u8, 105u8, 99u8, 97u8, 116u8, 105u8, 111u8, 110u8, 47u8, 118u8, 110u8, 100u8, 46u8, 111u8, 97u8, 115u8, 105u8, 115u8, 46u8, 111u8, 112u8, 101u8, 110u8, 100u8, 111u8, 99u8, 117u8, 109u8, 101u8, 110u8, 116u8, 46u8, 116u8, 101u8, 120u8, 116u8]  // application/vnd.oasis.opendocument.text
    } else if ext == seq![111u8, 103u8, 97u8] {  // oga
        seq![97u8, 117u8, 100u8, 105u8, 111u8, 47u8, 111u8, 103u8, 103u8]  // audio/ogg
    } else if ext == seq![111u8, 103u8, 118u8] {  // ogv
        seq![118u8, 105u8, 100u8, 101u8, 111u8, 47u8, 111u8, 103u8, 103u8]  // video/ogg
    } else if ext == seq![111u8, 103u8, 120u8] {  // ogx
        seq![97u8, 112u8, 112u8, 108u8, 105u8, 99u8, 97u8, 116u8, 105u8, 111u8, 110u8, 47u8, 111u8, 103u8, 103u8]  // application/ogg
    } else if ext == seq![111u8, 116u8, 102u8] {  // otf
        seq![102u8, 111u8, 110u8, 116u8, 47u8, 111u8, 116u8, 102u8]  // font/otf
    } else if ext == seq![112u8, 110u8, 103u8] {  // png
        seq![105u8, 109u8, 97u8, 103u8, 101u8, 47u8, 112u8, 110u8, 103u8]  // image/png
    } else if ext == seq![112u8, 100u8, 102u8] {  // pdf
        seq![97u8, 112u8, 112u8, 108u8, 105u8, 99u8, 97u8, 116u8, 105u8, 111u8, 110u8, 47u8, 112u8, 100u8, 102u8]  // application/pdf
    } else if ext == seq![112u8, 112u8, 116u8] {  // ppt
        seq![97u8, 112u8, 112u8, 108u8, 105u8, 99u8, 97u8, 116u8, 105u8, 111u8, 110u8, 47u8, 118u8, 110u8, 100u8, 46u8, 109u8, 115u8, 45u8, 112u8, 111u8, 119u8, 101u8, 114u8, 112u8, 111u8, 105u8, 110u8, 116u8]  // application/vnd.ms-powerpoint
    } else if ext == seq![112u8, 112u8, 116u8, 120u8] {  // pptx
        seq![97u8, 112u8, 112u8, 108u8, 105u8, 99u8, 97u8, 116u8, 105u8, 111u8, 110u8, 47u8, 118u8, 110u8, 100u8, 46u8, 111u8, 112u8, 101u8, 110u8, 120u8, 109u8, 108u8, 102u8, 111u8, 114u8, 109u8, 97u8, 116u8, 115u8, 45u8, 111u8, 102u8, 102u8, 105u8, 99u8, 101u8, 100u8, 111u8, 99u8, 117u8, 109u8, 101u8, 110u8, 116u8, 46u8, 112u8, 114u8, 101u8, 115u8, 101u8, 110u8, 116u8, 97u8, 116u8, 105u8, 111u8, 110u8, 109u8, 108u8, 46u8, 112u8, 114u8, 101u8, 115u8, 101u8, 110u8, 116u8, 97u8, 116u8, 105u8, 111u8, 110u8]  // application/vnd.openxmlformats-officedocument.presentationml.presentation
    } else if ext == seq![114u8, 97u8, 114u8] {  // rar
        seq![97u8, 112u8, 112u8, 108u8, 105u8, 99u8, 97u8, 116u8, 105u8, 111u8, 110u8, 47u8, 120u8, 45u8, 114u8, 97u8, 114u8, 45u8, 99u8, 111u8, 109u8, 112u8, 114u8, 101u8, 115u8, 115u8, 101u8, 100u8]  // application/x-rar-compressed
    } else if ext == seq![114u8, 116u8, 102u8] {  // rtf
        seq![97u8, 112u8, 112u8, 108u8, 105u8, 99u8, 97u8, 116u8, 105u8, 111u8, 110u8, 47u8, 114u8, 116u8, 102u8]  // application/rtf
    } else if ext == seq![115u8, 104u8] {  // sh
        seq![97u8, 112u8, 112u8, 108u8, 105u8, 99u8, 97u8, 116u8, 105u8, 111u8, 110u8, 47u8, 120u8, 45u8, 115u8, 104u8]  // application/x-sh
    } else if ext == seq![115u8, 118u8, 103u8] {  // svg
        seq![105u8, 109u8, 97u8, 103u8, 101u8, 47u8, 115u8, 118u8, 103u8, 43u8, 120u8, 109u8, 108u8]  // image/svg+xml
    } else if ext == seq![115u8, 119u8, 102u8] {  // swf
        seq![97u8, 112u8, 112u8, 108u8, 105u8, 99u8, 97u8, 116u8, 105u8, 111u8, 110u8, 47u8, 120u8, 45u8, 115u8, 104u8, 111u8, 99u8, 107u8, 119u8, 97u8, 118u8, 101u8, 45u8, 102u8, 108u8, 97u8, 115u8, 104u8]  // application/x-shockwave-flash
    } else if ext == seq![116u8, 97u8, 114u8] {  // tar
        seq![97u8, 112u8, 112u8, 108u8, 105u8, 99u8, 97u8, 116u8, 105u8, 111u8, 110u8, 47u8, 120u8, 45u8, 116u8, 97u8, 114u8]  // application/x-tar
    } else if ext == seq![116u8, 105u8, 102u8] {  // tif
        seq![105u8, 109u8, 97u8, 103u8, 101u8, 47u8, 116u8, 105u8, 102u8, 102u8]  // image/tiff
    } else if ext == seq![116u8, 105u8, 102u8, 102u8] {  // tiff
        seq![105u8, 109u8, 97u8, 103u8, 101u8, 47u8, 116u8, 105u8, 102u8, 102u8]  // image/tiff
    } else if ext == seq![116u8, 116u8, 102u8] {  // ttf
        seq![102u8, 111u8, 110u8, 116u8, 47u8, 116u8, 116u8, 102u8]  // font/ttf
    } else if ext == seq![116u8, 120u8, 116u8] {  // txt
        seq![116u8, 101u8, 120u8, 116u8, 47u8, 112u8, 108u8, 97u8, 105u8, 110u8]  // text/plain
    } else if ext == seq![118u8, 115u8, 100u8] {  // vsd
        seq![97u8, 112u8, 112u8, 108u8, 105u8, 99u8, 97u8, 116u8, 105u8, 111u8, 110u8, 47u8, 118u8, 110u8, 100u8, 46u8, 118u8, 105u8, 115u8, 105u8, 111u8]  // application/vnd.visio
    } else if ext == seq![119u8, 97u8, 118u8] {  // wav
        seq![97u8, 117u8, 100u8, 105u8, 111u8, 47u8, 119u8, 97u8, 118u8]  // audio/wav
    } else if ext == seq![119u8, 101u8, 98u8, 97u8] {  // weba
        seq![97u8, 117u8, 100u8, 105u8, 111u8, 47u8, 119u8, 101u8, 98u8, 109u8]  // audio/webm
    } else if ext == seq![119u8, 101u8, 98u8, 109u8] {  // webm
        seq![118u8, 105u8, 100u8, 101u8, 111u8, 47u8, 119u8, 101u8, 98u8, 109u8]  // video/webm
    } else if ext == seq![119u8, 101u8, 98u8, 112u8] {  // webp
        seq![105u8, 109u8, 97u8, 103u8, 101u8, 47u8, 119u8, 101u8, 98u8, 112u8]  // image/webp
    } else if ext == seq![119u8, 111u8, 102u8, 102u8] {  // woff
        seq![102u8, 111u8, 110u8, 116u8, 47u8, 119u8, 111u8, 102u8, 102u8]  // font/woff
    } else if ext == seq![119u8, 111u8, 102u8, 102u8, 50u8] {  // woff2
        seq![102u8, 111u8, 110u8, 116u8, 47u8, 119u8, 111u8, 102u8, 102u8, 50u8]  // font/woff2
    } else if ext == seq![120u8, 104u8, 116u8, 109u8, 108u8] {  // xhtml
        seq![97u8, 112u8, 112u8, 108u8, 105u8, 99u8, 97u8, 116u8, 105u8, 111u8, 110u8, 47u8, 120u8, 104u8, 116u8, 109u8, 108u8, 43u8, 120u8, 109u8, 108u8]  // application/xhtml+xml
    } else if ext == seq![120u8, 108u8, 115u8] {  // xls
        seq![97u8, 112u8, 112u8, 108u8, 105u8, 99u8, 97u8, 116u8, 105u8, 111u8, 110u8, 47u8, 118u8, 110u8, 100u8, 46u8, 109u8, 115u8, 45u8, 101u8, 120u8, 99u8, 101u8, 108u8]  // application/vnd.ms-excel
    } else if ext == seq![120u8, 108u8, 115u8, 120u8] {  // xlsx
        seq![97u8, 112u8, 112u8, 108u8, 105u8, 99u8, 97u8, 116u8, 105u8, 111u8, 110u8, 47u8, 118u8, 110u8, 100u8, 46u8, 111u8, 112u8, 101u8, 110u8, 120u8, 109u8, 108u8, 102u8, 111u8, 114u8, 109u8, 97u8, 116u8, 115u8, 45u8, 111u8, 102u8, 102u8, 105u8, 99u8, 101u8, 100u8, 111u8, 99u8, 117u8, 109u8, 101u8, 110u8, 116u8, 46u8, 115u8, 112u8, 114u8, 101u8, 97u8, 100u8, 115u8, 104u8, 101u8, 101u8, 116u8, 109u8, 108u8, 46u8, 115u8, 104u8, 101u8, 101u8, 116u8]  // application/vnd.openxmlformats-officedocument.spreadsheetml.sheet
    } else if ext == seq![120u8, 109u8, 108u8] {  // xml
        seq![116u8, 101u8, 120u8, 116u8, 47u8, 120u8, 109u8, 108u8]  // text/xml
    } else if ext == seq![120u8, 117u8, 108u8] {  // xul
        seq![97u8, 112u8, 112u8, 108u8, 105u8, 99u8, 97u8, 116u8, 105u8, 111u8, 110u8, 47u8, 118u8, 110u8, 100u8, 46u8, 109u8, 111u8, 122u8, 105u8, 108u8, 108u8, 97u8, 46u8, 120u8, 117u8, 108u8, 43u8, 120u8, 109u8, 108u8]  // application/vnd.mozilla.xul+xml
    } else if ext == seq![122u8, 105u8, 112u8] {  // zip
        seq![97u8, 112u8, 112u8, 108u8, 105u8, 99u8, 97u8, 116u8, 105u8, 111u8, 110u8, 47u8, 122u8, 105u8, 112u8]  // application/zip
    } else if ext == seq![51u8, 103u8, 112u8] {  // 3gp
        seq![118u8, 105u8, 100u8, 101u8, 111u8, 47u8, 51u8, 103u8, 112u8, 112u8]  // video/3gpp
    } else if ext == seq![51u8, 103u8, 50u8] {  // 3g2
        seq![118u8, 105u8, 100u8, 101u8, 111u8, 47u8, 51u8, 103u8, 112u8, 112u8, 50u8]  // video/3gpp2
    } else if ext == seq![55u8, 122u8] {  // 7z
        seq![97u8, 112u8, 112u8, 108u8, 105u8, 99u8, 97u8, 116u8, 105u8, 111u8, 110u8, 47u8, 120u8, 45u8, 55u8, 122u8, 45u8, 99u8, 111u8, 109u8, 112u8, 114u8, 101u8, 115u8, 115u8, 101u8, 100u8]  // application/x-7z-compressed
    } else {
        seq![97u8, 112u8, 112u8, 108u8, 105u8, 99u8, 97u8, 116u8, 105u8, 111u8, 110u8, 47u8, 111u8, 99u8, 116u8, 101u8, 116u8, 45u8, 115u8, 116u8, 114u8, 101u8, 97u8, 109u8]  // application/octet-stream
    }
}

/// Looks an extension up in the MIME table.
#[verifier::rlimit(60)]
pub fn mime_lookup(ext: &[u8]) -> (m: Vec<u8>)
    ensures
        m@ == mime_of(ext@),
{
    let probe: Vec<u8> = vec![97, 97, 99];  // aac
    if bytes_eq(ext, probe.as_slice()) {
        let m: Vec<u8> = vec![97, 117, 100, 105, 111, 47, 97, 97, 99];  // audio/aac
        proof {
            assert(probe@ =~= seq![97u8, 97u8, 99u8]);
            assert(m@ =~= seq![97u8, 117u8, 100u8, 105u8, 111u8, 47u8, 97u8, 97u8, 99u8]);
        }
        return m;
    }
    let probe: Vec<u8> = vec![97, 98, 119];  // abw
    if bytes_eq(ext, probe.as_slice()) {
        let m: Vec<u8> = vec![97, 112, 112, 108, 105, 99, 97, 116, 105, 111, 110, 47, 120, 45, 97, 98, 105, 119, 111, 114, 100];  // application/x-abiword
        proof {
            assert(probe@ =~= seq![97u8, 98u8, 119u8]);
            assert(m@ =~= seq![97u8, 112u8, 112u8, 108u8, 105u8, 99u8, 97u8, 116u8, 105u8, 111u8, 110u8, 47u8, 120u8, 45u8, 97u8, 98u8, 105u8, 119u8, 111u8, 114u8, 100u8]);
        }
        return m;
    }
    let probe: Vec<u8> = vec![97, 114, 99];  // arc
    if bytes_eq(ext, probe.as_slice()) {
        let m: Vec<u8> = vec![97, 112, 112, 108, 105, 99, 97, 116, 105, 111, 110, 47, 120, 45, 102, 114, 101, 101, 97, 114, 99];  // application/x-freearc
        proof {
            assert(probe@ =~= seq![97u8, 114u8, 99u8]);
            assert(m@ =~= seq![97u8, 112u8, 112u8, 108u8, 105u8, 99u8, 97u8, 116u8, 105u8, 111u8, 110u8, 47u8, 120u8, 45u8, 102u8, 114u8, 101u8, 101u8, 97u8, 114u8, 99u8]);
        }
        return m;
    }
    let probe: Vec<u8> = vec![97, 118, 105];  // avi
    if bytes_eq(ext, probe.as_slice()) {
        let m: Vec<u8> = vec![118, 105, 100, 101, 111, 47, 120, 45, 109, 115, 118, 105, 100, 101, 111];  // video/x-msvideo
        proof {
            assert(probe@ =~= seq![97u8, 118u8, 105u8]);
            assert(m@ =~= seq![118u8, 105u8, 100u8, 101u8, 111u8, 47u8, 120u8, 45u8, 109u8, 115u8, 118u8, 105u8, 100u8, 101u8, 111u8]);
        }
        return m;
    }
    let probe: Vec<u8> = vec![97, 122, 119];  // azw
    if bytes_eq(ext, probe.as_slice()) {
        let m: Vec<u8> = vec![97, 112, 112, 108, 105, 99, 97, 116, 105, 111, 110, 47, 118, 110, 100, 46, 97, 109, 97, 122, 111, 110, 46, 101, 98, 111, 111, 107];  // application/vnd.amazon.ebook
        proof {
            assert(probe@ =~= seq![97u8, 122u8, 119u8]);
            assert(m@ =~= seq![97u8, 112u8, 112u8, 108u8, 105u8, 99u8, 97u8, 116u8, 105u8, 111u8, 110u8, 47u8, 118u8, 110u8, 100u8, 46u8, 97u8, 109u8, 97u8, 122u8, 111u8, 110u8, 46u8, 101u8, 98u8, 111u8, 111u8, 107u8]);
        }
        return m;
    }
    let probe: Vec<u8> = vec![98, 105, 110];  // bin
    if bytes_eq(ext, probe.as_slice()) {
        let m: Vec<u8> = vec![97, 112, 112, 108, 105, 99, 97, 116, 105, 111, 110, 47, 111, 99, 116, 101, 116, 45, 115, 116, 114, 101, 97, 109];  // application/octet-stream
        proof {
            assert(probe@ =~= seq![98u8, 105u8, 110u8]);
            assert(m@ =~= seq![97u8, 112u8, 112u8, 108u8, 105u8, 99u8, 97u8, 116u8, 105u8, 111u8, 110u8, 47u8, 111u8, 99u8, 116u8, 101u8, 116u8, 45u8, 115u8, 116u8, 114u8, 101u8, 97u8, 109u8]);
        }
        return m;
    }
    let probe: Vec<u8> = vec![98, 109, 112];  // bmp
    if bytes_eq(ext, probe.as_slice()) {
        let m: Vec<u8> = vec![105, 109, 97, 103, 101, 47, 98, 109, 112];  // image/bmp
        proof {
            assert(probe@ =~= seq![98u8, 109u8, 112u8]);
            assert(m@ =~= seq![105u8, 109u8, 97u8, 103u8, 101u8, 47u8, 98u8, 109u8, 112u8]);
        }
        return m;
    }
    let probe: Vec<u8> = vec![98, 122];  // bz
    if bytes_eq(ext, probe.as_slice()) {
        let m: Vec<u8> = vec![97, 112, 112, 108, 105, 99, 97, 116, 105, 111, 110, 47, 120, 45, 98, 122, 105, 112];  // application/x-bzip
        proof {
            assert(probe@ =~= seq![98u8, 122u8]);
            assert(m@ =~= seq![97u8, 112u8, 112u8, 108u8, 105u8, 99u8, 97u8, 116u8, 105u8, 111u8, 110u8, 47u8, 120u8, 45u8, 98u8, 122u8, 105u8, 112u8]);
        }
        return m;
    }
    let probe: Vec<u8> = vec![98, 122, 50];  // bz2
    if bytes_eq(ext, probe.as_slice()) {
        let m: Vec<u8> = vec![97, 112, 112, 108, 105, 99, 97, 116, 105, 111, 110, 47, 120, 45, 98, 122, 105, 112, 50];  // application/x-bzip2
        proof {
            assert(probe@ =~= seq![98u8, 122u8, 50u8]);
            assert(m@ =~= seq![97u8, 112u8, 112u8, 108u8, 105u8, 99u8, 97u8, 116u8, 105u8, 111u8, 110u8, 47u8, 120u8, 45u8, 98u8, 122u8, 105u8, 112u8, 50u8]);
        }
        return m;
    }
    let probe: Vec<u8> = vec![99, 115, 104];  // csh
    if bytes_eq(ext, probe.as_slice()) {
        let m: Vec<u8> = vec![97, 112, 112, 108, 105, 99, 97, 116, 105, 111, 110, 47, 120, 45, 99, 115, 104];  // application/x-csh
        proof {
            assert(probe@ =~= seq![99u8, 115u8, 104u8]);
            assert(m@ =~= seq![97u8, 112u8, 112u8, 108u8, 105u8, 99u8, 97u8, 116u8, 105u8, 111u8, 110u8, 47u8, 120u8, 45u8, 99u8, 115u8, 104u8]);
        }
        return m;
    }
    let probe: Vec<u8> = vec![99, 115, 115];  // css
    if bytes_eq(ext, probe.as_slice()) {
        let m: Vec<u8> = vec![116, 101, 120, 116, 47, 99, 115, 115];  // text/css
        proof {
            assert(probe@ =~= seq![99u8, 115u8, 115u8]);
            assert(m@ =~= seq![116u8, 101u8, 120u8, 116u8, 47u8, 99u8, 115u8, 115u8]);
        }
        return m;
    }
    let probe: Vec<u8> = vec![99, 115, 118];  // csv
    if bytes_eq(ext, probe.as_slice()) {
        let m: Vec<u8> = vec![116, 101, 120, 116, 47, 99, 115, 118];  // text/csv
        proof {
            assert(probe@ =~= seq![99u8, 115u8, 118u8]);
            assert(m@ =~= seq![116u8, 101u8, 120u8, 116u8, 47u8, 99u8, 115u8, 118u8]);
        }
        return m;
    }
    let probe: Vec<u8> = vec![100, 111, 99];  // doc
    if bytes_eq(ext, probe.as_slice()) {
        let m: Vec<u8> = vec![97, 112, 112, 108, 105, 99, 97, 116, 105, 111, 110, 47, 109, 115, 119, 111, 114, 100];  // application/msword
        proof {
            assert(probe@ =~= seq![100u8, 111u8, 99u8]);
            assert(m@ =~= seq![97u8, 112u8, 112u8, 108u8, 105u8, 99u8, 97u8, 116u8, 105u8, 111u8, 110u8, 47u8, 109u8, 115u8, 119u8, 111u8, 114u8, 100u8]);
        }
        return m;
    }
    let probe: Vec<u8> = vec![100, 111, 99, 120];  // docx
    if bytes_eq(ext, probe.as_slice()) {
        let m: Vec<u8> = vec![97, 112, 112, 108, 105, 99, 97, 116, 105, 111, 110, 47, 118, 110, 100, 46, 111, 112, 101, 110, 120, 109, 108, 102, 111, 114, 109, 97, 116, 115, 45, 111, 102, 102, 105, 99, 101, 100, 111, 99, 117, 109, 101, 110, 116, 46, 119, 111, 114, 100, 112, 114, 111, 99, 101, 115, 115, 105, 110, 103, 109, 108, 46, 100, 111, 99, 117, 109, 101, 110, 116];  // application/vnd.openxmlformats-officedocument.wordprocessingml.document
        proof {
            assert(probe@ =~= seq![100u8, 111u8, 99u8, 120u8]);
            assert(m@ =~= seq![97u8, 112u8, 112u8, 108u8, 105u8, 99u8, 97u8, 116u8, 105u8, 111u8, 110u8, 47u8, 118u8, 110u8, 100u8, 46u8, 111u8, 112u8, 101u8, 110u8, 120u8, 109u8, 108u8, 102u8, 111u8, 114u8, 109u8, 97u8, 116u8, 115u8, 45u8, 111u8, 102u8, 102u8, 105u8, 99u8, 101u8, 100u8, 111u8, 99u8, 117u8, 109u8, 101u8, 110u8, 116u8, 46u8, 119u8, 111u8, 114u8, 100u8, 112u8, 114u8, 111u8, 99u8, 101u8, 115u8, 115u8, 105u8, 110u8, 103u8, 109u8, 108u8, 46u8, 100u8, 111u8, 99u8, 117u8, 109u8, 101u8, 110u8, 116u8]);
        }
        return m;
    }
    let probe: Vec<u8> = vec![101, 111, 116];  // eot
    if bytes_eq(ext, probe.as_slice()) {
        let m: Vec<u8> = vec![97, 112, 112, 108, 105, 99, 97, 116, 105, 111, 110, 47, 118, 110, 100, 46, 109, 115, 45, 102, 111, 110, 116, 111, 98, 106, 101, 99, 116];  // application/vnd.ms-fontobject
        proof {
            assert(probe@ =~= seq![101u8, 111u8, 116u8]);
            assert(m@ =~= seq![97u8, 112u8, 112u8, 108u8, 105u8, 99u8, 97u8, 116u8, 105u8, 111u8, 110u8, 47u8, 118u8, 110u8, 100u8, 46u8, 109u8, 115u8, 45u8, 102u8, 111u8, 110u8, 116u8, 111u8, 98u8, 106u8, 101u8, 99u8, 116u8]);
        }
        return m;
    }
    let probe: Vec<u8> = vec![101, 112, 117, 98];  // epub
    if bytes_eq(ext, probe.as_slice()) {
        let m: Vec<u8> = vec![97, 112, 112, 108, 105, 99, 97, 116, 105, 111, 110, 47, 101, 112, 117, 98, 43, 122, 105, 112];  // application/epub+zip
        proof {
            assert(probe@ =~= seq![101u8, 112u8, 117u8, 98u8]);
            assert(m@ =~= seq![97u8, 112u8, 112u8, 108u8, 105u8, 99u8, 97u8, 116u8, 105u8, 111u8, 110u8, 47u8, 101u8, 112u8, 117u8, 98u8, 43u8, 122u8, 105u8, 112u8]);
        }
        return m;
    }
    let probe: Vec<u8> = vec![103, 105, 102];  // gif
    if bytes_eq(ext, probe.as_slice()) {
        let m: Vec<u8> = vec![105, 109, 97, 103, 101, 47, 103, 105, 102];  // image/gif
        proof {
            assert(probe@ =~= seq![103u8, 105u8, 102u8]);
            assert(m@ =~= seq![105u8, 109u8, 97u8, 103u8, 101u8, 47u8, 103u8, 105u8, 102u8]);
        }
        return m;
    }
    let probe: Vec<u8> = vec![104, 116, 109];  // htm
    if bytes_eq(ext, probe.as_slice()) {
        let m: Vec<u8> = vec![116, 101, 120, 116, 47, 104, 116, 109, 108];  // text/html
        proof {
            assert(probe@ =~= seq![104u8, 116u8, 109u8]);
            assert(m@ =~= seq![116u8, 101u8, 120u8, 116u8, 47u8, 104u8, 116u8, 109u8, 108u8]);
        }
        return m;
    }
    let probe: Vec<u8> = vec![104, 116, 109, 108];  // html
    if bytes_eq(ext, probe.as_slice()) {
        let m: Vec<u8> = vec![116, 101, 120, 116, 47, 104, 116, 109, 108];  // text/html
        proof {
            assert(probe@ =~= seq![104u8, 116u8, 109u8, 108u8]);
            assert(m@ =~= seq![116u8, 101u8, 120u8, 116u8, 47u8, 104u8, 116u8, 109u8, 108u8]);
        }
        return m;
    }
    let probe: Vec<u8> = vec![105, 99, 111];  // ico
    if bytes_eq(ext, probe.as_slice()) {
        let m: Vec<u8> = vec![105, 109, 97, 103, 101, 47, 118, 110, 100, 46, 109, 105, 99, 114, 111, 115, 111, 102, 116, 46, 105, 99, 111, 110];  // image/vnd.microsoft.icon
        proof {
            assert(probe@ =~= seq![105u8, 99u8, 111u8]);
            assert(m@ =~= seq![105u8, 109u8, 97u8, 103u8, 101u8, 47u8, 118u8, 110u8, 100u8, 46u8, 109u8, 105u8, 99u8, 114u8, 111u8, 115u8, 111u8, 102u8, 116u8, 46u8, 105u8, 99u8, 111u8, 110u8]);
        }
        return m;
    }
    let probe: Vec<u8> = vec![105, 99, 115];  // ics
    if bytes_eq(ext, probe.as_slice()) {
        let m: Vec<u8> = vec![116, 101, 120, 116, 47, 99, 97, 108, 101, 110, 100, 97, 114];  // text/calendar
        proof {
            assert(probe@ =~= seq![105u8, 99u8, 115u8]);
            assert(m@ =~= seq![116u8, 101u8, 120u8, 116u8, 47u8, 99u8, 97u8, 108u8, 101u8, 110u8, 100u8, 97u8, 114u8]);
        }
        return m;
    }
    let probe: Vec<u8> = vec![106, 97, 114];  // jar
    if bytes_eq(ext, probe.as_slice()) {
        let m: Vec<u8> = vec![97, 112, 112, 108, 105, 99, 97, 116, 105, 111, 110, 47, 106, 97, 118, 97, 45, 97, 114, 99, 104, 105, 118, 101];  // application/java-archive
        proof {
            assert(probe@ =~= seq![106u8, 97u8, 114u8]);
            assert(m@ =~= seq![97u8, 112u8, 112u8, 108u8, 105u8, 99u8, 97u8, 116u8, 105u8, 111u8, 110u8, 47u8, 106u8, 97u8, 118u8, 97u8, 45u8, 97u8, 114u8, 99u8, 104u8, 105u8, 118u8, 101u8]);
        }
        return m;
    }
    let probe: Vec<u8> = vec![106, 112, 101, 103];  // jpeg
    if bytes_eq(ext, probe.as_slice()) {
        let m: Vec<u8> = vec![105, 109, 97, 103, 101, 47, 106, 112, 101, 103];  // image/jpeg
        proof {
            assert(probe@ =~= seq![106u8, 112u8, 101u8, 103u8]);
            assert(m@ =~= seq![105u8, 109u8, 97u8, 103u8, 101u8, 47u8, 106u8, 112u8, 101u8, 103u8]);
        }
        return m;
    }
    let probe: Vec<u8> = vec![106, 112, 103];  // jpg
    if bytes_eq(ext, probe.as_slice()) {
        let m: Vec<u8> = vec![105, 109, 97, 103, 101, 47, 106, 112, 101, 103];  // image/jpeg
        proof {
            assert(probe@ =~= seq![106u8, 112u8, 103u8]);
            assert(m@ =~= seq![105u8, 109u8, 97u8, 103u8, 101u8, 47u8, 106u8, 112u8, 101u8, 103u8]);
        }
        return m;
    }
    let probe: Vec<u8> = vec![106, 115];  // js
    if bytes_eq(ext, probe.as_slice()) {
        let m: Vec<u8> = vec![116, 101, 120, 116, 47, 106, 97, 118, 97, 115, 99, 114, 105, 112, 116];  // text/javascript
        proof {
            assert(probe@ =~= seq![106u8, 115u8]);
            assert(m@ =~= seq![116u8, 101u8, 120u8, 116u8, 47u8, 106u8, 97u8, 118u8, 97u8, 115u8, 99u8, 114u8, 105u8, 112u8, 116u8]);
        }
        return m;
    }
    let probe: Vec<u8> = vec![106, 115, 111, 110];  // json
    if bytes_eq(ext, probe.as_slice()) {
        let m: Vec<u8> = vec![97, 112, 112, 108, 105, 99, 97, 116, 105, 111, 110, 47, 106, 115, 111, 110];  // application/json
        proof {
            assert(probe@ =~= seq![106u8, 115u8, 111u8, 110u8]);
            assert(m@ =~= seq![97u8, 112u8, 112u8, 108u8, 105u8, 99u8, 97u8, 116u8, 105u8, 111u8, 110u8, 47u8, 106u8, 115u8, 111u8, 110u8]);
        }
        return m;
    }
    let probe: Vec<u8> = vec![109, 106, 115];  // mjs
    if bytes_eq(ext, probe.as_slice()) {
        let m: Vec<u8> = vec![116, 101, 120, 116, 47, 106, 97, 118, 97, 115, 99, 114, 105, 112, 116];  // text/javascript
        proof {
            assert(probe@ =~= seq![109u8, 106u8, 115u8]);
            assert(m@ =~= seq![116u8, 101u8, 120u8, 116u8, 47u8, 106u8, 97u8, 118u8, 97u8, 115u8, 99u8, 114u8, 105u8, 112u8, 116u8]);
        }
        return m;
    }
    let probe: Vec<u8> = vec![109, 112, 51];  // mp3
    if bytes_eq(ext, probe.as_slice()) {
        let m: Vec<u8> = vec![97, 117, 100, 105, 111, 47, 109, 112, 101, 103];  // audio/mpeg
        proof {
            assert(probe@ =~= seq![109u8, 112u8, 51u8]);
            assert(m@ =~= seq![97u8, 117u8, 100u8, 105u8, 111u8, 47u8, 109u8, 112u8, 101u8, 103u8]);
        }
        return m;
    }
    let probe: Vec<u8> = vec![109, 112, 101, 103];  // mpeg
    if bytes_eq(ext, probe.as_slice()) {
        let m: Vec<u8> = vec![118, 105, 100, 101, 111, 47, 109, 112, 101, 103];  // video/mpeg
        proof {
            assert(probe@ =~= seq![109u8, 112u8, 101u8, 103u8]);
            assert(m@ =~= seq![118u8, 105u8, 100u8, 101u8, 111u8, 47u8, 109u8, 112u8, 101u8, 103u8]);
        }
        return m;
    }
    let probe: Vec<u8> = vec![109, 112, 107, 103];  // mpkg
    if bytes_eq(ext, probe.as_slice()) {
        let m: Vec<u8> = vec![97, 112, 112, 108, 105, 99, 97, 116, 105, 111, 110, 47, 118, 110, 100, 46, 97, 112, 112, 108, 101, 46, 105, 110, 115, 116, 97, 108, 108, 101, 114, 43, 120, 109, 108];  // application/vnd.apple.installer+xml
        proof {
            assert(probe@ =~= seq![109u8, 112u8, 107u8, 103u8]);
            assert(m@ =~= seq![97u8, 112u8, 112u8, 108u8, 105u8, 99u8, 97u8, 116u8, 105u8, 111u8, 110u8, 47u8, 118u8, 110u8, 100u8, 46u8, 97u8, 112u8, 112u8, 108u8, 101u8, 46u8, 105u8, 110u8, 115u8, 116u8, 97u8, 108u8, 108u8, 101u8, 114u8, 43u8, 120u8, 109u8, 108u8]);
        }
        return m;
    }
    let probe: Vec<u8> = vec![111, 100, 112];  // odp
    if bytes_eq(ext, probe.as_slice()) {
        let m: Vec<u8> = vec![97, 112, 112, 108, 105, 99, 97, 116, 105, 111, 110, 47, 118, 110, 100, 46, 111, 97, 115, 105, 115, 46, 111, 112, 101, 110, 100, 111, 99, 117, 109, 101, 110, 116, 46, 112, 114, 101, 115, 101, 110, 116, 97, 116, 105, 111, 110];  // application/vnd.oasis.opendocument.presentation
        proof {
            assert(probe@ =~= seq![111u8, 100u8, 112u8]);
            assert(m@ =~= seq![97u8, 112u8, 112u8, 108u8, 105u8, 99u8, 97u8, 116u8, 105u8, 111u8, 110u8, 47u8, 118u8, 110u8, 100u8, 46u8, 111u8, 97u8, 115u8, 105u8, 115u8, 46u8, 111u8, 112u8, 101u8, 110u8, 100u8, 111u8, 99u8, 117u8, 109u8, 101u8, 110u8, 116u8, 46u8, 112u8, 114u8, 101u8, 115u8, 101u8, 110u8, 116u8, 97u8, 116u8, 105u8, 111u8, 110u8]);
        }
        return m;
    }
    let probe: Vec<u8> = vec![111, 100, 115];  // ods
    if bytes_eq(ext, probe.as_slice()) {
        let m: Vec<u8> = vec![97, 112, 112, 108, 105, 99, 97, 116, 105, 111, 110, 47, 118, 110, 100, 46, 111, 97, 115, 105, 115, 46, 111, 112, 101, 110, 100, 111, 99, 117, 109, 101, 110, 116, 46, 115, 112, 114, 101, 97, 100, 115, 104, 101, 101, 116];  // application/vnd.oasis.opendocument.spreadsheet
        proof {
            assert(probe@ =~= seq![111u8, 100u8, 115u8]);
            assert(m@ =~= seq![97u8, 112u8, 112u8, 108u8, 105u8, 99u8, 97u8, 116u8, 105u8, 111u8, 110u8, 47u8, 118u8, 110u8, 100u8, 46u8, 111u8, 97u8, 115u8, 105u8, 115u8, 46u8, 111u8, 112u8, 101u8, 110u8, 100u8, 111u8, 99u8, 117u8, 109u8, 101u8, 110u8, 116u8, 46u8, 115u8, 112u8, 114u8, 101u8, 97u8, 100u8, 115u8, 104u8, 101u8, 101u8, 116u8]);
        }
        return m;
    }
    let probe: Vec<u8> = vec![111, 100, 116];  // odt
    if bytes_eq(ext, probe.as_slice()) {
        let m: Vec<u8> = vec![97, 112, 112, 108, 105, 99, 97, 116, 105, 111, 110, 47, 118, 110, 100, 46, 111, 97, 115, 105, 115, 46, 111, 112, 101, 110, 100, 111, 99, 117, 109, 101, 110, 116, 46, 116, 101, 120, 116];  // application/vnd.oasis.opendocument.text
        proof {
            assert(probe@ =~= seq![111u8, 100u8, 116u8]);
            assert(m@ =~= seq![97u8, 112u8, 112u8, 108u8, 105u8, 99u8, 97u8, 116u8, 105u8, 111u8, 110u8, 47u8, 118u8, 110u8, 100u8, 46u8, 111u8, 97u8, 115u8, 105u8, 115u8, 46u8, 111u8, 112u8, 101u8, 110u8, 100u8, 111u8, 99u8, 117u8, 109u8, 101u8, 110u8, 116u8, 46u8, 116u8, 101u8, 120u8, 116u8]);
        }
        return m;
    }
    let probe: Vec<u8> = vec![111, 103, 97];  // oga
    if bytes_eq(ext, probe.as_slice()) {
        let m: Vec<u8> = vec![97, 117, 100, 105, 111, 47, 111, 103, 103];  // audio/ogg
        proof {
            assert(probe@ =~= seq![111u8, 103u8, 97u8]);
            assert(m@ =~= seq![97u8, 117u8, 100u8, 105u8, 111u8, 47u8, 111u8, 103u8, 103u8]);
        }
        return m;
    }
    let probe: Vec<u8> = vec![111, 103, 118];  // ogv
    if bytes_eq(ext, probe.as_slice()) {
        let m: Vec<u8> = vec![118, 105, 100, 101, 111, 47, 111, 103, 103];  // video/ogg
        proof {
            assert(probe@ =~= seq![111u8, 103u8, 118u8]);
            assert(m@ =~= seq![118u8, 105u8, 100u8, 101u8, 111u8, 47u8, 111u8, 103u8, 103u8]);
        }
        return m;
    }
    let probe: Vec<u8> = vec![111, 103, 120];  // ogx
    if bytes_eq(ext, probe.as_slice()) {
        let m: Vec<u8> = vec![97, 112, 112, 108, 105, 99, 97, 116, 105, 111, 110, 47, 111, 103, 103];  // application/ogg
        proof {
            assert(probe@ =~= seq![111u8, 103u8, 120u8]);
            assert(m@ =~= seq![97u8, 112u8, 112u8, 108u8, 105u8, 99u8, 97u8, 116u8, 105u8, 111u8, 110u8, 47u8, 111u8, 103u8, 103u8]);
        }
        return m;
    }
    let probe: Vec<u8> = vec![111, 116, 102];  // otf
    if bytes_eq(ext, probe.as_slice()) {
        let m: Vec<u8> = vec![102, 111, 110, 116, 47, 111, 116, 102];  // font/otf
        proof {
            assert(probe@ =~= seq![111u8, 116u8, 102u8]);
            assert(m@ =~= seq![102u8, 111u8, 110u8, 116u8, 47u8, 111u8, 116u8, 102u8]);
        }
        return m;
    }
    let probe: Vec<u8> = vec![112, 110, 103];  // png
    if bytes_eq(ext, probe.as_slice()) {
        let m: Vec<u8> = vec![105, 109, 97, 103, 101, 47, 112, 110, 103];  // image/png
        proof {
            assert(probe@ =~= seq![112u8, 110u8, 103u8]);
            assert(m@ =~= seq![105u8, 109u8, 97u8, 103u8, 101u8, 47u8, 112u8, 110u8, 103u8]);
        }
        return m;
    }
    let probe: Vec<u8> = vec![112, 100, 102];  // pdf
    if bytes_eq(ext, probe.as_slice()) {
        let m: Vec<u8> = vec![97, 112, 112, 108, 105, 99, 97, 116, 105, 111, 110, 47, 112, 100, 102];  // application/pdf
        proof {
            assert(probe@ =~= seq![112u8, 100u8, 102u8]);
            assert(m@ =~= seq![97u8, 112u8, 112u8, 108u8, 105u8, 99u8, 97u8, 116u8, 105u8, 111u8, 110u8, 47u8, 112u8, 100u8, 102u8]);
        }
        return m;
    }
    let probe: Vec<u8> = vec![112, 112, 116];  // ppt
    if bytes_eq(ext, probe.as_slice()) {
        let m: Vec<u8> = vec![97, 112, 112, 108, 105, 99, 97, 116, 105, 111, 110, 47, 118, 110, 100, 46, 109, 115, 45, 112, 111, 119, 101, 114, 112, 111, 105, 110, 116];  // application/vnd.ms-powerpoint
        proof {
            assert(probe@ =~= seq![112u8, 112u8, 116u8]);
            assert(m@ =~= seq![97u8, 112u8, 112u8, 108u8, 105u8, 99u8, 97u8, 116u8, 105u8, 111u8, 110u8, 47u8, 118u8, 110u8, 100u8, 46u8, 109u8, 115u8, 45u8, 112u8, 111u8, 119u8, 101u8, 114u8, 112u8, 111u8, 105u8, 110u8, 116u8]);
        }
        return m;
    }
    let probe: Vec<u8> = vec![112, 112, 116, 120];  // pptx
    if bytes_eq(ext, probe.as_slice()) {
        let m: Vec<u8> = vec![97, 112, 112, 108, 105, 99, 97, 116, 105, 111, 110, 47, 118, 110, 100, 46, 111, 112, 101, 110, 120, 109, 108, 102, 111, 114, 109, 97, 116, 115, 45, 111, 102, 102, 105, 99, 101, 100, 111, 99, 117, 109, 101, 110, 116, 46, 112, 114, 101, 115, 101, 110, 116, 97, 116, 105, 111, 110, 109, 108, 46, 112, 114, 101, 115, 101, 110, 116, 97, 116, 105, 111, 110];  // application/vnd.openxmlformats-officedocument.presentationml.presentation
        proof {
            assert(probe@ =~= seq![112u8, 112u8, 116u8, 120u8]);
            assert(m@ =~= seq![97u8, 112u8, 112u8, 108u8, 105u8, 99u8, 97u8, 116u8, 105u8, 111u8, 110u8, 47u8, 118u8, 110u8, 100u8, 46u8, 111u8, 112u8, 101u8, 110u8, 120u8, 109u8, 108u8, 102u8, 111u8, 114u8, 109u8, 97u8, 116u8, 115u8, 45u8, 111u8, 102u8, 102u8, 105u8, 99u8, 101u8, 100u8, 111u8, 99u8, 117u8, 109u8, 101u8, 110u8, 116u8, 46u8, 112u8, 114u8, 101u8, 115u8, 101u8, 110u8, 116u8, 97u8, 116u8, 105u8, 111u8, 110u8, 109u8, 108u8, 46u8, 112u8, 114u8, 101u8, 115u8, 101u8, 110u8, 116u8, 97u8, 116u8, 105u8, 111u8, 110u8]);
        }
        return m;
    }
    let probe: Vec<u8> = vec![114, 97, 114];  // rar
    if bytes_eq(ext, probe.as_slice()) {
        let m: Vec<u8> = vec![97, 112, 112, 108, 105, 99, 97, 116, 105, 111, 110, 47, 120, 45, 114, 97, 114, 45, 99, 111, 109, 112, 114, 101, 115, 115, 101, 100];  // application/x-rar-compressed
        proof {
            assert(probe@ =~= seq![114u8, 97u8, 114u8]);
            assert(m@ =~= seq![97u8, 112u8, 112u8, 108u8, 105u8, 99u8, 97u8, 116u8, 105u8, 111u8, 110u8, 47u8, 120u8, 45u8, 114u8, 97u8, 114u8, 45u8, 99u8, 111u8, 109u8, 112u8, 114u8, 101u8, 115u8, 115u8, 101u8, 100u8]);
        }
        return m;
    }
    let probe: Vec<u8> = vec![114, 116, 102];  // rtf
    if bytes_eq(ext, probe.as_slice()) {
        let m: Vec<u8> = vec![97, 112, 112, 108, 105, 99, 97, 116, 105, 111, 110, 47, 114, 116, 102];  // application/rtf
        proof {
            assert(probe@ =~= seq![114u8, 116u8, 102u8]);
            assert(m@ =~= seq![97u8, 112u8, 112u8, 108u8, 105u8, 99u8, 97u8, 116u8, 105u8, 111u8, 110u8, 47u8, 114u8, 116u8, 102u8]);
        }
        return m;
    }
    let probe: Vec<u8> = vec![115, 104];  // sh
    if bytes_eq(ext, probe.as_slice()) {
        let m: Vec<u8> = vec![97, 112, 112, 108, 105, 99, 97, 116, 105, 111, 110, 47, 120, 45, 115, 104];  // application/x-sh
        proof {
            assert(probe@ =~= seq![115u8, 104u8]);
            assert(m@ =~= seq![97u8, 112u8, 112u8, 108u8, 105u8, 99u8, 97u8, 116u8, 105u8, 111u8, 110u8, 47u8, 120u8, 45u8, 115u8, 104u8]);
        }
        return m;
    }
    let probe: Vec<u8> = vec![115, 118, 103];  // svg
    if bytes_eq(ext, probe.as_slice()) {
        let m: Vec<u8> = vec![105, 109, 97, 103, 101, 47, 115, 118, 103, 43, 120, 109, 108];  // image/svg+xml
        proof {
            assert(probe@ =~= seq![115u8, 118u8, 103u8]);
            assert(m@ =~= seq![105u8, 109u8, 97u8, 103u8, 101u8, 47u8, 115u8, 118u8, 103u8, 43u8, 120u8, 109u8, 108u8]);
        }
        return m;
    }
    let probe: Vec<u8> = vec![115, 119, 102];  // swf
    if bytes_eq(ext, probe.as_slice()) {
        let m: Vec<u8> = vec![97, 112, 112, 108, 105, 99, 97, 116, 105, 111, 110, 47, 120, 45, 115, 104, 111, 99, 107, 119, 97, 118, 101, 45, 102, 108, 97, 115, 104];  // application/x-shockwave-flash
        proof {
            assert(probe@ =~= seq![115u8, 119u8, 102u8]);
            assert(m@ =~= seq![97u8, 112u8, 112u8, 108u8, 105u8, 99u8, 97u8, 116u8, 105u8, 111u8, 110u8, 47u8, 120u8, 45u8, 115u8, 104u8, 111u8, 99u8, 107u8, 119u8, 97u8, 118u8, 101u8, 45u8, 102u8, 108u8, 97u8, 115u8, 104u8]);
        }
        return m;
    }
    let probe: Vec<u8> = vec![116, 97, 114];  // tar
    if bytes_eq(ext, probe.as_slice()) {
        let m: Vec<u8> = vec![97, 112, 112, 108, 105, 99, 97, 116, 105, 111, 110, 47, 120, 45, 116, 97, 114];  // application/x-tar
        proof {
            assert(probe@ =~= seq![116u8, 97u8, 114u8]);
            assert(m@ =~= seq![97u8, 112u8, 112u8, 108u8, 105u8, 99u8, 97u8, 116u8, 105u8, 111u8, 110u8, 47u8, 120u8, 45u8, 116u8, 97u8, 114u8]);
        }
        return m;
    }
    let probe: Vec<u8> = vec![116, 105, 102];  // tif
    if bytes_eq(ext, probe.as_slice()) {
        let m: Vec<u8> = vec![105, 109, 97, 103, 101, 47, 116, 105, 102, 102];  // image/tiff
        proof {
            assert(probe@ =~= seq![116u8, 105u8, 102u8]);
            assert(m@ =~= seq![105u8, 109u8, 97u8, 103u8, 101u8, 47u8, 116u8, 105u8, 102u8, 102u8]);
        }
        return m;
    }
    let probe: Vec<u8> = vec![116, 105, 102, 102];  // tiff
    if bytes_eq(ext, probe.as_slice()) {
        let m: Vec<u8> = vec![105, 109, 97, 103, 101, 47, 116, 105, 102, 102];  // image/tiff
        proof {
            assert(probe@ =~= seq![116u8, 105u8, 102u8, 102u8]);
            assert(m@ =~= seq![105u8, 109u8, 97u8, 103u8, 101u8, 47u8, 116u8, 105u8, 102u8, 102u8]);
        }
        return m;
    }
    let probe: Vec<u8> = vec![116, 116, 102];  // ttf
    if bytes_eq(ext, probe.as_slice()) {
        let m: Vec<u8> = vec![102, 111, 110, 116, 47, 116, 116, 102];  // font/ttf
        proof {
            assert(probe@ =~= seq![116u8, 116u8, 102u8]);
            assert(m@ =~= seq![102u8, 111u8, 110u8, 116u8, 47u8, 116u8, 116u8, 102u8]);
        }
        return m;
    }
    let probe: Vec<u8> = vec![116, 120, 116];  // txt
    if bytes_eq(ext, probe.as_slice()) {
        let m: Vec<u8> = vec![116, 101, 120, 116, 47, 112, 108, 97, 105, 110];  // text/plain
        proof {
            assert(probe@ =~= seq![116u8, 120u8, 116u8]);
            assert(m@ =~= seq![116u8, 101u8, 120u8, 116u8, 47u8, 112u8, 108u8, 97u8, 105u8, 110u8]);
        }
        return m;
    }
    let probe: Vec<u8> = vec![118, 115, 100];  // vsd
    if bytes_eq(ext, probe.as_slice()) {
        let m: Vec<u8> = vec![97, 112, 112, 108, 105, 99, 97, 116, 105, 111, 110, 47, 118, 110, 100, 46, 118, 105, 115, 105, 111];  // application/vnd.visio
        proof {
            assert(probe@ =~= seq![118u8, 115u8, 100u8]);
            assert(m@ =~= seq![97u8, 112u8, 112u8, 108u8, 105u8, 99u8, 97u8, 116u8, 105u8, 111u8, 110u8, 47u8, 118u8, 110u8, 100u8, 46u8, 118u8, 105u8, 115u8, 105u8, 111u8]);
        }
        return m;
    }
    let probe: Vec<u8> = vec![119, 97, 118];  // wav
    if bytes_eq(ext, probe.as_slice()) {
        let m: Vec<u8> = vec![97, 117, 100, 105, 111, 47, 119, 97, 118];  // audio/wav
        proof {
            assert(probe@ =~= seq![119u8, 97u8, 118u8]);
            assert(m@ =~= seq![97u8, 117u8, 100u8, 105u8, 111u8, 47u8, 119u8, 97u8, 118u8]);
        }
        return m;
    }
    let probe: Vec<u8> = vec![119, 101, 98, 97];  // weba
    if bytes_eq(ext, probe.as_slice()) {
        let m: Vec<u8> = vec![97, 117, 100, 105, 111, 47, 119, 101, 98, 109];  // audio/webm
        proof {
            assert(probe@ =~= seq![119u8, 101u8, 98u8, 97u8]);
            assert(m@ =~= seq![97u8, 117u8, 100u8, 105u8, 111u8, 47u8, 119u8, 101u8, 98u8, 109u8]);
        }
        return m;
    }
    let probe: Vec<u8> = vec![119, 101, 98, 109];  // webm
    if bytes_eq(ext, probe.as_slice()) {
        let m: Vec<u8> = vec![118, 105, 100, 101, 111, 47, 119, 101, 98, 109];  // video/webm
        proof {
            assert(probe@ =~= seq![119u8, 101u8, 98u8, 109u8]);
            assert(m@ =~= seq![118u8, 105u8, 100u8, 101u8, 111u8, 47u8, 119u8, 101u8, 98u8, 109u8]);
        }
        return m;
    }
    let probe: Vec<u8> = vec![119, 101, 98, 112];  // webp
    if bytes_eq(ext, probe.as_slice()) {
        let m: Vec<u8> = vec![105, 109, 97, 103, 101, 47, 119, 101, 98, 112];  // image/webp
        proof {
            assert(probe@ =~= seq![119u8, 101u8, 98u8, 112u8]);
            assert(m@ =~= seq![105u8, 109u8, 97u8, 103u8, 101u8, 47u8, 119u8, 101u8, 98u8, 112u8]);
        }
        return m;
    }
    let probe: Vec<u8> = vec![119, 111, 102, 102];  // woff
    if bytes_eq(ext, probe.as_slice()) {
        let m: Vec<u8> = vec![102, 111, 110, 116, 47, 119, 111, 102, 102];  // font/woff
        proof {
            assert(probe@ =~= seq![119u8, 111u8, 102u8, 102u8]);
            assert(m@ =~= seq![102u8, 111u8, 110u8, 116u8, 47u8, 119u8, 111u8, 102u8, 102u8]);
        }
        return m;
    }
    let probe: Vec<u8> = vec![119, 111, 102, 102, 50];  // woff2
    if bytes_eq(ext, probe.as_slice()) {
        let m: Vec<u8> = vec![102, 111, 110, 116, 47, 119, 111, 102, 102, 50];  // font/woff2
        proof {
            assert(probe@ =~= seq![119u8, 111u8, 102u8, 102u8, 50u8]);
            assert(m@ =~= seq![102u8, 111u8, 110u8, 116u8, 47u8, 119u8, 111u8, 102u8, 102u8, 50u8]);
        }
        return m;
    }
    let probe: Vec<u8> = vec![120, 104, 116, 109, 108];  // xhtml
    if bytes_eq(ext, probe.as_slice()) {
        let m: Vec<u8> = vec![97, 112, 112, 108, 105, 99, 97, 116, 105, 111, 110, 47, 120, 104, 116, 109, 108, 43, 120, 109, 108];  // application/xhtml+xml
        proof {
            assert(probe@ =~= seq![120u8, 104u8, 116u8, 109u8, 108u8]);
            assert(m@ =~= seq![97u8, 112u8, 112u8, 108u8, 105u8, 99u8, 97u8, 116u8, 105u8, 111u8, 110u8, 47u8, 120u8, 104u8, 116u8, 109u8, 108u8, 43u8, 120u8, 109u8, 108u8]);
        }
        return m;
    }
    let probe: Vec<u8> = vec![120, 108, 115];  // xls
    if bytes_eq(ext, probe.as_slice()) {
        let m: Vec<u8> = vec![97, 112, 112, 108, 105, 99, 97, 116, 105, 111, 110, 47, 118, 110, 100, 46, 109, 115, 45, 101, 120, 99, 101, 108];  // application/vnd.ms-excel
        proof {
            assert(probe@ =~= seq![120u8, 108u8, 115u8]);
            assert(m@ =~= seq![97u8, 112u8, 112u8, 108u8, 105u8, 99u8, 97u8, 116u8, 105u8, 111u8, 110u8, 47u8, 118u8, 110u8, 100u8, 46u8, 109u8, 115u8, 45u8, 101u8, 120u8, 99u8, 101u8, 108u8]);
        }
        return m;
    }
    let probe: Vec<u8> = vec![120, 108, 115, 120];  // xlsx
    if bytes_eq(ext, probe.as_slice()) {
        let m: Vec<u8> = vec![97, 112, 112, 108, 105, 99, 97, 116, 105, 111, 110, 47, 118, 110, 100, 46, 111, 112, 101, 110, 120, 109, 108, 102, 111, 114, 109, 97, 116, 115, 45, 111, 102, 102, 105, 99, 101, 100, 111, 99, 117, 109, 101, 110, 116, 46, 115, 112, 114, 101, 97, 100, 115, 104, 101, 101, 116, 109, 108, 46, 115, 104, 101, 101, 116];  // application/vnd.openxmlformats-officedocument.spreadsheetml.sheet
        proof {
            assert(probe@ =~= seq![120u8, 108u8, 115u8, 120u8]);
            assert(m@ =~= seq![97u8, 112u8, 112u8, 108u8, 105u8, 99u8, 97u8, 116u8, 105u8, 111u8, 110u8, 47u8, 118u8, 110u8, 100u8, 46u8, 111u8, 112u8, 101u8, 110u8, 120u8, 109u8, 108u8, 102u8, 111u8, 114u8, 109u8, 97u8, 116u8, 115u8, 45u8, 111u8, 102u8, 102u8, 105u8, 99u8, 101u8, 100u8, 111u8, 99u8, 117u8, 109u8, 101u8, 110u8, 116u8, 46u8, 115u8, 112u8, 114u8, 101u8, 97u8, 100u8, 115u8, 104u8, 101u8, 101u8, 116u8, 109u8, 108u8, 46u8, 115u8, 104u8, 101u8, 101u8, 116u8]);
        }
        return m;
    }
    let probe: Vec<u8> = vec![120, 109, 108];  // xml
    if bytes_eq(ext, probe.as_slice()) {
        let m: Vec<u8> = vec![116, 101, 120, 116, 47, 120, 109, 108];  // text/xml
        proof {
            assert(probe@ =~= seq![120u8, 109u8, 108u8]);
            assert(m@ =~= seq![116u8, 101u8, 120u8, 116u8, 47u8, 120u8, 109u8, 108u8]);
        }
        return m;
    }
    let probe: Vec<u8> = vec![120, 117, 108];  // xul
    if bytes_eq(ext, probe.as_slice()) {
        let m: Vec<u8> = vec![97, 112, 112, 108, 105, 99, 97, 116, 105, 111, 110, 47, 118, 110, 100, 46, 109, 111, 122, 105, 108, 108, 97, 46, 120, 117, 108, 43, 120, 109, 108];  // application/vnd.mozilla.xul+xml
        proof {
            assert(probe@ =~= seq![120u8, 117u8, 108u8]);
            assert(m@ =~= seq![97u8, 112u8, 112u8, 108u8, 105u8, 99u8, 97u8, 116u8, 105u8, 111u8, 110u8, 47u8, 118u8, 110u8, 100u8, 46u8, 109u8, 111u8, 122u8, 105u8, 108u8, 108u8, 97u8, 46u8, 120u8, 117u8, 108u8, 43u8, 120u8, 109u8, 108u8]);
        }
        return m;
    }
    let probe: Vec<u8> = vec![122, 105, 112];  // zip
    if bytes_eq(ext, probe.as_slice()) {
        let m: Vec<u8> = vec![97, 112, 112, 108, 105, 99, 97, 116, 105, 111, 110, 47, 122, 105, 112];  // application/zip
        proof {
            assert(probe@ =~= seq![122u8, 105u8, 112u8]);
            assert(m@ =~= seq![97u8, 112u8, 112u8, 108u8, 105u8, 99u8, 97u8, 116u8, 105u8, 111u8, 110u8, 47u8, 122u8, 105u8, 112u8]);
        }
        return m;
    }
    let probe: Vec<u8> = vec![51, 103, 112];  // 3gp
    if bytes_eq(ext, probe.as_slice()) {
        let m: Vec<u8> = vec![118, 105, 100, 101, 111, 47, 51, 103, 112, 112];  // video/3gpp
        proof {
            assert(probe@ =~= seq![51u8, 103u8, 112u8]);
            assert(m@ =~= seq![118u8, 105u8, 100u8, 101u8, 111u8, 47u8, 51u8, 103u8, 112u8, 112u8]);
        }
        return m;
    }
    let probe: Vec<u8> = vec![51, 103, 50];  // 3g2
    if bytes_eq(ext, probe.as_slice()) {
        let m: Vec<u8> = vec![118, 105, 100, 101, 111, 47, 51, 103, 112, 112, 50];  // video/3gpp2
        proof {
            assert(probe@ =~= seq![51u8, 103u8, 50u8]);
            assert(m@ =~= seq![118u8, 105u8, 100u8, 101u8, 111u8, 47u8, 51u8, 103u8, 112u8, 112u8, 50u8]);
        }
        return m;
    }
    let probe: Vec<u8> = vec![55, 122];  // 7z
    if bytes_eq(ext, probe.as_slice()) {
        let m: Vec<u8> = vec![97, 112, 112, 108, 105, 99, 97, 116, 105, 111, 110, 47, 120, 45, 55, 122, 45, 99, 111, 109, 112, 114, 101, 115, 115, 101, 100];  // application/x-7z-compressed
        proof {
            assert(probe@ =~= seq![55u8, 122u8]);
            assert(m@ =~= seq![97u8, 112u8, 112u8, 108u8, 105u8, 99u8, 97u8, 116u8, 105u8, 111u8, 110u8, 47u8, 120u8, 45u8, 55u8, 122u8, 45u8, 99u8, 111u8, 109u8, 112u8, 114u8, 101u8, 115u8, 115u8, 101u8, 100u8]);
        }
        return m;
    }
    let m: Vec<u8> = vec![97, 112, 112, 108, 105, 99, 97, 116, 105, 111, 110, 47, 111, 99, 116, 101, 116, 45, 115, 116, 114, 101, 97, 109];  // application/octet-stream
    proof {
        assert(m@ =~= seq![97u8, 112u8, 112u8, 108u8, 105u8, 99u8, 97u8, 116u8, 105u8, 111u8, 110u8, 47u8, 111u8, 99u8, 116u8, 101u8, 116u8, 45u8, 115u8, 116u8, 114u8, 101u8, 97u8, 109u8]);
    }
    m
}

} // verus!
