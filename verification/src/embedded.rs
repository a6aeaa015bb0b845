//! Serving the embedded web console: which file answers a path, and its media type.
use vstd::prelude::*;

use crate::text::{chars_of, concat2, ends_with, has_suffix, string_from_chars};

verus! {

/// The media type a file is served with, by its extension.
pub open spec fn mime_of(path: Seq<char>) -> Seq<char> {
    if has_suffix(path, ".html"@) {
        "text/html; charset=utf-8"@
    } else if has_suffix(path, ".css"@) {
        "text/css; charset=utf-8"@
    } else if has_suffix(path, ".js"@) || has_suffix(path, ".mjs"@) {
        "application/javascript; charset=utf-8"@
    } else if has_suffix(path, ".json"@) {
        "application/json"@
    } else if has_suffix(path, ".svg"@) {
        "image/svg+xml"@
    } else if has_suffix(path, ".png"@) {
        "image/png"@
    } else if has_suffix(path, ".jpg"@) || has_suffix(path, ".jpeg"@) {
        "image/jpeg"@
    } else if has_suffix(path, ".ico"@) {
        "image/x-icon"@
    } else if has_suffix(path, ".woff2"@) {
        "font/woff2"@
    } else if has_suffix(path, ".woff"@) {
        "font/woff"@
    } else if has_suffix(path, ".ttf"@) {
        "font/ttf"@
    } else if has_suffix(path, ".txt"@) {
        "text/plain; charset=utf-8"@
    } else if has_suffix(path, ".xml"@) {
        "application/xml"@
    } else {
        "application/octet-stream"@
    }
}

proof fn lemma_suffixes_nest(path: Seq<char>, a: Seq<char>, b: Seq<char>)
    requires
        has_suffix(path, a),
        has_suffix(path, b),
        a.len() <= b.len(),
    ensures
        b.subrange(b.len() - a.len(), b.len() as int) == a,
{
    assert forall|k: int| 0 <= k < a.len() implies b.subrange(b.len() - a.len(), b.len() as int)[k] == a[k] by {
        assert(b[b.len() - a.len() + k] == path[path.len() - a.len() + k]);
        assert(a[k] == path[path.len() - a.len() + k]);
    }
    assert(b.subrange(b.len() - a.len(), b.len() as int) =~= a);
}

/// A file is served with the media type of its extension, whatever else its name
/// holds, and a file with none of the known extensions as a byte stream.
pub proof fn law_media_type_follows_extension(path: Seq<char>)
    ensures
        has_suffix(path, ".html"@) ==> mime_of(path) == "text/html; charset=utf-8"@,
        has_suffix(path, ".css"@) ==> mime_of(path) == "text/css; charset=utf-8"@,
        has_suffix(path, ".js"@) ==> mime_of(path) == "application/javascript; charset=utf-8"@,
        has_suffix(path, ".mjs"@) ==> mime_of(path) == "application/javascript; charset=utf-8"@,
        has_suffix(path, ".json"@) ==> mime_of(path) == "application/json"@,
        has_suffix(path, ".svg"@) ==> mime_of(path) == "image/svg+xml"@,
        has_suffix(path, ".png"@) ==> mime_of(path) == "image/png"@,
        has_suffix(path, ".jpg"@) ==> mime_of(path) == "image/jpeg"@,
        has_suffix(path, ".jpeg"@) ==> mime_of(path) == "image/jpeg"@,
        has_suffix(path, ".ico"@) ==> mime_of(path) == "image/x-icon"@,
        has_suffix(path, ".woff2"@) ==> mime_of(path) == "font/woff2"@,
        has_suffix(path, ".woff"@) ==> mime_of(path) == "font/woff"@,
        has_suffix(path, ".ttf"@) ==> mime_of(path) == "font/ttf"@,
        has_suffix(path, ".txt"@) ==> mime_of(path) == "text/plain; charset=utf-8"@,
        has_suffix(path, ".xml"@) ==> mime_of(path) == "application/xml"@,
        !(exists|k: int| 0 <= k < extensions().len() && has_suffix(path, #[trigger] extensions()[k])) ==> mime_of(
            path,
        ) == "application/octet-stream"@,
{
    reveal_strlit(".html");
    reveal_strlit(".css");
    reveal_strlit(".js");
    reveal_strlit(".mjs");
    reveal_strlit(".json");
    reveal_strlit(".svg");
    reveal_strlit(".png");
    reveal_strlit(".jpg");
    reveal_strlit(".jpeg");
    reveal_strlit(".ico");
    reveal_strlit(".woff2");
    reveal_strlit(".woff");
    reveal_strlit(".ttf");
    reveal_strlit(".txt");
    reveal_strlit(".xml");
    // Two extensions never both end one name: the shorter would end the longer.
    if has_suffix(path, ".css"@) {
        if has_suffix(path, ".html"@) {
            lemma_suffixes_nest(path, ".css"@, ".html"@);
            assert((".html"@).subrange(1, 5)[0] != (".css"@)[0]);
        }
    }
    if has_suffix(path, ".js"@) {
        if has_suffix(path, ".html"@) {
            lemma_suffixes_nest(path, ".js"@, ".html"@);
            assert((".html"@).subrange(2, 5)[0] != (".js"@)[0]);
        }
        if has_suffix(path, ".css"@) {
            lemma_suffixes_nest(path, ".js"@, ".css"@);
            assert((".css"@).subrange(1, 4)[0] != (".js"@)[0]);
        }
    }
    if has_suffix(path, ".mjs"@) {
        if has_suffix(path, ".html"@) {
            lemma_suffixes_nest(path, ".mjs"@, ".html"@);
            assert((".html"@).subrange(1, 5)[0] != (".mjs"@)[0]);
        }
        if has_suffix(path, ".css"@) {
            lemma_suffixes_nest(path, ".mjs"@, ".css"@);
            assert((".css"@).subrange(0, 4)[1] != (".mjs"@)[1]);
        }
        if has_suffix(path, ".js"@) {
            lemma_suffixes_nest(path, ".js"@, ".mjs"@);
            assert((".mjs"@).subrange(1, 4)[0] != (".js"@)[0]);
        }
    }
    if has_suffix(path, ".json"@) {
        if has_suffix(path, ".html"@) {
            lemma_suffixes_nest(path, ".json"@, ".html"@);
            assert((".html"@).subrange(0, 5)[1] != (".json"@)[1]);
        }
        if has_suffix(path, ".css"@) {
            lemma_suffixes_nest(path, ".css"@, ".json"@);
            assert((".json"@).subrange(1, 5)[0] != (".css"@)[0]);
        }
        if has_suffix(path, ".js"@) {
            lemma_suffixes_nest(path, ".js"@, ".json"@);
            assert((".json"@).subrange(2, 5)[0] != (".js"@)[0]);
        }
        if has_suffix(path, ".mjs"@) {
            lemma_suffixes_nest(path, ".mjs"@, ".json"@);
            assert((".json"@).subrange(1, 5)[0] != (".mjs"@)[0]);
        }
    }
    if has_suffix(path, ".svg"@) {
        if has_suffix(path, ".html"@) {
            lemma_suffixes_nest(path, ".svg"@, ".html"@);
            assert((".html"@).subrange(1, 5)[0] != (".svg"@)[0]);
        }
        if has_suffix(path, ".css"@) {
            lemma_suffixes_nest(path, ".svg"@, ".css"@);
            assert((".css"@).subrange(0, 4)[1] != (".svg"@)[1]);
        }
        if has_suffix(path, ".js"@) {
            lemma_suffixes_nest(path, ".js"@, ".svg"@);
            assert((".svg"@).subrange(1, 4)[0] != (".js"@)[0]);
        }
        if has_suffix(path, ".mjs"@) {
            lemma_suffixes_nest(path, ".svg"@, ".mjs"@);
            assert((".mjs"@).subrange(0, 4)[1] != (".svg"@)[1]);
        }
        if has_suffix(path, ".json"@) {
            lemma_suffixes_nest(path, ".svg"@, ".json"@);
            assert((".json"@).subrange(1, 5)[0] != (".svg"@)[0]);
        }
    }
    if has_suffix(path, ".png"@) {
        if has_suffix(path, ".html"@) {
            lemma_suffixes_nest(path, ".png"@, ".html"@);
            assert((".html"@).subrange(1, 5)[0] != (".png"@)[0]);
        }
        if has_suffix(path, ".css"@) {
            lemma_suffixes_nest(path, ".png"@, ".css"@);
            assert((".css"@).subrange(0, 4)[1] != (".png"@)[1]);
        }
        if has_suffix(path, ".js"@) {
            lemma_suffixes_nest(path, ".js"@, ".png"@);
            assert((".png"@).subrange(1, 4)[0] != (".js"@)[0]);
        }
        if has_suffix(path, ".mjs"@) {
            lemma_suffixes_nest(path, ".png"@, ".mjs"@);
            assert((".mjs"@).subrange(0, 4)[1] != (".png"@)[1]);
        }
        if has_suffix(path, ".json"@) {
            lemma_suffixes_nest(path, ".png"@, ".json"@);
            assert((".json"@).subrange(1, 5)[0] != (".png"@)[0]);
        }
        if has_suffix(path, ".svg"@) {
            lemma_suffixes_nest(path, ".png"@, ".svg"@);
            assert((".svg"@).subrange(0, 4)[1] != (".png"@)[1]);
        }
    }
    if has_suffix(path, ".jpg"@) {
        if has_suffix(path, ".html"@) {
            lemma_suffixes_nest(path, ".jpg"@, ".html"@);
            assert((".html"@).subrange(1, 5)[0] != (".jpg"@)[0]);
        }
        if has_suffix(path, ".css"@) {
            lemma_suffixes_nest(path, ".jpg"@, ".css"@);
            assert((".css"@).subrange(0, 4)[1] != (".jpg"@)[1]);
        }
        if has_suffix(path, ".js"@) {
            lemma_suffixes_nest(path, ".js"@, ".jpg"@);
            assert((".jpg"@).subrange(1, 4)[0] != (".js"@)[0]);
        }
        if has_suffix(path, ".mjs"@) {
            lemma_suffixes_nest(path, ".jpg"@, ".mjs"@);
            assert((".mjs"@).subrange(0, 4)[1] != (".jpg"@)[1]);
        }
        if has_suffix(path, ".json"@) {
            lemma_suffixes_nest(path, ".jpg"@, ".json"@);
            assert((".json"@).subrange(1, 5)[0] != (".jpg"@)[0]);
        }
        if has_suffix(path, ".svg"@) {
            lemma_suffixes_nest(path, ".jpg"@, ".svg"@);
            assert((".svg"@).subrange(0, 4)[1] != (".jpg"@)[1]);
        }
        if has_suffix(path, ".png"@) {
            lemma_suffixes_nest(path, ".jpg"@, ".png"@);
            assert((".png"@).subrange(0, 4)[1] != (".jpg"@)[1]);
        }
    }
    if has_suffix(path, ".jpeg"@) {
        if has_suffix(path, ".html"@) {
            lemma_suffixes_nest(path, ".jpeg"@, ".html"@);
            assert((".html"@).subrange(0, 5)[1] != (".jpeg"@)[1]);
        }
        if has_suffix(path, ".css"@) {
            lemma_suffixes_nest(path, ".css"@, ".jpeg"@);
            assert((".jpeg"@).subrange(1, 5)[0] != (".css"@)[0]);
        }
        if has_suffix(path, ".js"@) {
            lemma_suffixes_nest(path, ".js"@, ".jpeg"@);
            assert((".jpeg"@).subrange(2, 5)[0] != (".js"@)[0]);
        }
        if has_suffix(path, ".mjs"@) {
            lemma_suffixes_nest(path, ".mjs"@, ".jpeg"@);
            assert((".jpeg"@).subrange(1, 5)[0] != (".mjs"@)[0]);
        }
        if has_suffix(path, ".json"@) {
            lemma_suffixes_nest(path, ".jpeg"@, ".json"@);
            assert((".json"@).subrange(0, 5)[2] != (".jpeg"@)[2]);
        }
        if has_suffix(path, ".svg"@) {
            lemma_suffixes_nest(path, ".svg"@, ".jpeg"@);
            assert((".jpeg"@).subrange(1, 5)[0] != (".svg"@)[0]);
        }
        if has_suffix(path, ".png"@) {
            lemma_suffixes_nest(path, ".png"@, ".jpeg"@);
            assert((".jpeg"@).subrange(1, 5)[0] != (".png"@)[0]);
        }
        if has_suffix(path, ".jpg"@) {
            lemma_suffixes_nest(path, ".jpg"@, ".jpeg"@);
            assert((".jpeg"@).subrange(1, 5)[0] != (".jpg"@)[0]);
        }
    }
    if has_suffix(path, ".ico"@) {
        if has_suffix(path, ".html"@) {
            lemma_suffixes_nest(path, ".ico"@, ".html"@);
            assert((".html"@).subrange(1, 5)[0] != (".ico"@)[0]);
        }
        if has_suffix(path, ".css"@) {
            lemma_suffixes_nest(path, ".ico"@, ".css"@);
            assert((".css"@).subrange(0, 4)[1] != (".ico"@)[1]);
        }
        if has_suffix(path, ".js"@) {
            lemma_suffixes_nest(path, ".js"@, ".ico"@);
            assert((".ico"@).subrange(1, 4)[0] != (".js"@)[0]);
        }
        if has_suffix(path, ".mjs"@) {
            lemma_suffixes_nest(path, ".ico"@, ".mjs"@);
            assert((".mjs"@).subrange(0, 4)[1] != (".ico"@)[1]);
        }
        if has_suffix(path, ".json"@) {
            lemma_suffixes_nest(path, ".ico"@, ".json"@);
            assert((".json"@).subrange(1, 5)[0] != (".ico"@)[0]);
        }
        if has_suffix(path, ".svg"@) {
            lemma_suffixes_nest(path, ".ico"@, ".svg"@);
            assert((".svg"@).subrange(0, 4)[1] != (".ico"@)[1]);
        }
        if has_suffix(path, ".png"@) {
            lemma_suffixes_nest(path, ".ico"@, ".png"@);
            assert((".png"@).subrange(0, 4)[1] != (".ico"@)[1]);
        }
        if has_suffix(path, ".jpg"@) {
            lemma_suffixes_nest(path, ".ico"@, ".jpg"@);
            assert((".jpg"@).subrange(0, 4)[1] != (".ico"@)[1]);
        }
        if has_suffix(path, ".jpeg"@) {
            lemma_suffixes_nest(path, ".ico"@, ".jpeg"@);
            assert((".jpeg"@).subrange(1, 5)[0] != (".ico"@)[0]);
        }
    }
    if has_suffix(path, ".woff2"@) {
        if has_suffix(path, ".html"@) {
            lemma_suffixes_nest(path, ".html"@, ".woff2"@);
            assert((".woff2"@).subrange(1, 6)[0] != (".html"@)[0]);
        }
        if has_suffix(path, ".css"@) {
            lemma_suffixes_nest(path, ".css"@, ".woff2"@);
            assert((".woff2"@).subrange(2, 6)[0] != (".css"@)[0]);
        }
        if has_suffix(path, ".js"@) {
            lemma_suffixes_nest(path, ".js"@, ".woff2"@);
            assert((".woff2"@).subrange(3, 6)[0] != (".js"@)[0]);
        }
        if has_suffix(path, ".mjs"@) {
            lemma_suffixes_nest(path, ".mjs"@, ".woff2"@);
            assert((".woff2"@).subrange(2, 6)[0] != (".mjs"@)[0]);
        }
        if has_suffix(path, ".json"@) {
            lemma_suffixes_nest(path, ".json"@, ".woff2"@);
            assert((".woff2"@).subrange(1, 6)[0] != (".json"@)[0]);
        }
        if has_suffix(path, ".svg"@) {
            lemma_suffixes_nest(path, ".svg"@, ".woff2"@);
            assert((".woff2"@).subrange(2, 6)[0] != (".svg"@)[0]);
        }
        if has_suffix(path, ".png"@) {
            lemma_suffixes_nest(path, ".png"@, ".woff2"@);
            assert((".woff2"@).subrange(2, 6)[0] != (".png"@)[0]);
        }
        if has_suffix(path, ".jpg"@) {
            lemma_suffixes_nest(path, ".jpg"@, ".woff2"@);
            assert((".woff2"@).subrange(2, 6)[0] != (".jpg"@)[0]);
        }
        if has_suffix(path, ".jpeg"@) {
            lemma_suffixes_nest(path, ".jpeg"@, ".woff2"@);
            assert((".woff2"@).subrange(1, 6)[0] != (".jpeg"@)[0]);
        }
        if has_suffix(path, ".ico"@) {
            lemma_suffixes_nest(path, ".ico"@, ".woff2"@);
            assert((".woff2"@).subrange(2, 6)[0] != (".ico"@)[0]);
        }
    }
    if has_suffix(path, ".woff"@) {
        if has_suffix(path, ".html"@) {
            lemma_suffixes_nest(path, ".woff"@, ".html"@);
            assert((".html"@).subrange(0, 5)[1] != (".woff"@)[1]);
        }
        if has_suffix(path, ".css"@) {
            lemma_suffixes_nest(path, ".css"@, ".woff"@);
            assert((".woff"@).subrange(1, 5)[0] != (".css"@)[0]);
        }
        if has_suffix(path, ".js"@) {
            lemma_suffixes_nest(path, ".js"@, ".woff"@);
            assert((".woff"@).subrange(2, 5)[0] != (".js"@)[0]);
        }
        if has_suffix(path, ".mjs"@) {
            lemma_suffixes_nest(path, ".mjs"@, ".woff"@);
            assert((".woff"@).subrange(1, 5)[0] != (".mjs"@)[0]);
        }
        if has_suffix(path, ".json"@) {
            lemma_suffixes_nest(path, ".woff"@, ".json"@);
            assert((".json"@).subrange(0, 5)[1] != (".woff"@)[1]);
        }
        if has_suffix(path, ".svg"@) {
            lemma_suffixes_nest(path, ".svg"@, ".woff"@);
            assert((".woff"@).subrange(1, 5)[0] != (".svg"@)[0]);
        }
        if has_suffix(path, ".png"@) {
            lemma_suffixes_nest(path, ".png"@, ".woff"@);
            assert((".woff"@).subrange(1, 5)[0] != (".png"@)[0]);
        }
        if has_suffix(path, ".jpg"@) {
            lemma_suffixes_nest(path, ".jpg"@, ".woff"@);
            assert((".woff"@).subrange(1, 5)[0] != (".jpg"@)[0]);
        }
        if has_suffix(path, ".jpeg"@) {
            lemma_suffixes_nest(path, ".woff"@, ".jpeg"@);
            assert((".jpeg"@).subrange(0, 5)[1] != (".woff"@)[1]);
        }
        if has_suffix(path, ".ico"@) {
            lemma_suffixes_nest(path, ".ico"@, ".woff"@);
            assert((".woff"@).subrange(1, 5)[0] != (".ico"@)[0]);
        }
        if has_suffix(path, ".woff2"@) {
            lemma_suffixes_nest(path, ".woff"@, ".woff2"@);
            assert((".woff2"@).subrange(1, 6)[0] != (".woff"@)[0]);
        }
    }
    if has_suffix(path, ".ttf"@) {
        if has_suffix(path, ".html"@) {
            lemma_suffixes_nest(path, ".ttf"@, ".html"@);
            assert((".html"@).subrange(1, 5)[0] != (".ttf"@)[0]);
        }
        if has_suffix(path, ".css"@) {
            lemma_suffixes_nest(path, ".ttf"@, ".css"@);
            assert((".css"@).subrange(0, 4)[1] != (".ttf"@)[1]);
        }
        if has_suffix(path, ".js"@) {
            lemma_suffixes_nest(path, ".js"@, ".ttf"@);
            assert((".ttf"@).subrange(1, 4)[0] != (".js"@)[0]);
        }
        if has_suffix(path, ".mjs"@) {
            lemma_suffixes_nest(path, ".ttf"@, ".mjs"@);
            assert((".mjs"@).subrange(0, 4)[1] != (".ttf"@)[1]);
        }
        if has_suffix(path, ".json"@) {
            lemma_suffixes_nest(path, ".ttf"@, ".json"@);
            assert((".json"@).subrange(1, 5)[0] != (".ttf"@)[0]);
        }
        if has_suffix(path, ".svg"@) {
            lemma_suffixes_nest(path, ".ttf"@, ".svg"@);
            assert((".svg"@).subrange(0, 4)[1] != (".ttf"@)[1]);
        }
        if has_suffix(path, ".png"@) {
            lemma_suffixes_nest(path, ".ttf"@, ".png"@);
            assert((".png"@).subrange(0, 4)[1] != (".ttf"@)[1]);
        }
        if has_suffix(path, ".jpg"@) {
            lemma_suffixes_nest(path, ".ttf"@, ".jpg"@);
            assert((".jpg"@).subrange(0, 4)[1] != (".ttf"@)[1]);
        }
        if has_suffix(path, ".jpeg"@) {
            lemma_suffixes_nest(path, ".ttf"@, ".jpeg"@);
            assert((".jpeg"@).subrange(1, 5)[0] != (".ttf"@)[0]);
        }
        if has_suffix(path, ".ico"@) {
            lemma_suffixes_nest(path, ".ttf"@, ".ico"@);
            assert((".ico"@).subrange(0, 4)[1] != (".ttf"@)[1]);
        }
        if has_suffix(path, ".woff2"@) {
            lemma_suffixes_nest(path, ".ttf"@, ".woff2"@);
            assert((".woff2"@).subrange(2, 6)[0] != (".ttf"@)[0]);
        }
        if has_suffix(path, ".woff"@) {
            lemma_suffixes_nest(path, ".ttf"@, ".woff"@);
            assert((".woff"@).subrange(1, 5)[0] != (".ttf"@)[0]);
        }
    }
    if has_suffix(path, ".txt"@) {
        if has_suffix(path, ".html"@) {
            lemma_suffixes_nest(path, ".txt"@, ".html"@);
            assert((".html"@).subrange(1, 5)[0] != (".txt"@)[0]);
        }
        if has_suffix(path, ".css"@) {
            lemma_suffixes_nest(path, ".txt"@, ".css"@);
            assert((".css"@).subrange(0, 4)[1] != (".txt"@)[1]);
        }
        if has_suffix(path, ".js"@) {
            lemma_suffixes_nest(path, ".js"@, ".txt"@);
            assert((".txt"@).subrange(1, 4)[0] != (".js"@)[0]);
        }
        if has_suffix(path, ".mjs"@) {
            lemma_suffixes_nest(path, ".txt"@, ".mjs"@);
            assert((".mjs"@).subrange(0, 4)[1] != (".txt"@)[1]);
        }
        if has_suffix(path, ".json"@) {
            lemma_suffixes_nest(path, ".txt"@, ".json"@);
            assert((".json"@).subrange(1, 5)[0] != (".txt"@)[0]);
        }
        if has_suffix(path, ".svg"@) {
            lemma_suffixes_nest(path, ".txt"@, ".svg"@);
            assert((".svg"@).subrange(0, 4)[1] != (".txt"@)[1]);
        }
        if has_suffix(path, ".png"@) {
            lemma_suffixes_nest(path, ".txt"@, ".png"@);
            assert((".png"@).subrange(0, 4)[1] != (".txt"@)[1]);
        }
        if has_suffix(path, ".jpg"@) {
            lemma_suffixes_nest(path, ".txt"@, ".jpg"@);
            assert((".jpg"@).subrange(0, 4)[1] != (".txt"@)[1]);
        }
        if has_suffix(path, ".jpeg"@) {
            lemma_suffixes_nest(path, ".txt"@, ".jpeg"@);
            assert((".jpeg"@).subrange(1, 5)[0] != (".txt"@)[0]);
        }
        if has_suffix(path, ".ico"@) {
            lemma_suffixes_nest(path, ".txt"@, ".ico"@);
            assert((".ico"@).subrange(0, 4)[1] != (".txt"@)[1]);
        }
        if has_suffix(path, ".woff2"@) {
            lemma_suffixes_nest(path, ".txt"@, ".woff2"@);
            assert((".woff2"@).subrange(2, 6)[0] != (".txt"@)[0]);
        }
        if has_suffix(path, ".woff"@) {
            lemma_suffixes_nest(path, ".txt"@, ".woff"@);
            assert((".woff"@).subrange(1, 5)[0] != (".txt"@)[0]);
        }
        if has_suffix(path, ".ttf"@) {
            lemma_suffixes_nest(path, ".txt"@, ".ttf"@);
            assert((".ttf"@).subrange(0, 4)[2] != (".txt"@)[2]);
        }
    }
    if has_suffix(path, ".xml"@) {
        if has_suffix(path, ".html"@) {
            lemma_suffixes_nest(path, ".xml"@, ".html"@);
            assert((".html"@).subrange(1, 5)[0] != (".xml"@)[0]);
        }
        if has_suffix(path, ".css"@) {
            lemma_suffixes_nest(path, ".xml"@, ".css"@);
            assert((".css"@).subrange(0, 4)[1] != (".xml"@)[1]);
        }
        if has_suffix(path, ".js"@) {
            lemma_suffixes_nest(path, ".js"@, ".xml"@);
            assert((".xml"@).subrange(1, 4)[0] != (".js"@)[0]);
        }
        if has_suffix(path, ".mjs"@) {
            lemma_suffixes_nest(path, ".xml"@, ".mjs"@);
            assert((".mjs"@).subrange(0, 4)[1] != (".xml"@)[1]);
        }
        if has_suffix(path, ".json"@) {
            lemma_suffixes_nest(path, ".xml"@, ".json"@);
            assert((".json"@).subrange(1, 5)[0] != (".xml"@)[0]);
        }
        if has_suffix(path, ".svg"@) {
            lemma_suffixes_nest(path, ".xml"@, ".svg"@);
            assert((".svg"@).subrange(0, 4)[1] != (".xml"@)[1]);
        }
        if has_suffix(path, ".png"@) {
            lemma_suffixes_nest(path, ".xml"@, ".png"@);
            assert((".png"@).subrange(0, 4)[1] != (".xml"@)[1]);
        }
        if has_suffix(path, ".jpg"@) {
            lemma_suffixes_nest(path, ".xml"@, ".jpg"@);
            assert((".jpg"@).subrange(0, 4)[1] != (".xml"@)[1]);
        }
        if has_suffix(path, ".jpeg"@) {
            lemma_suffixes_nest(path, ".xml"@, ".jpeg"@);
            assert((".jpeg"@).subrange(1, 5)[0] != (".xml"@)[0]);
        }
        if has_suffix(path, ".ico"@) {
            lemma_suffixes_nest(path, ".xml"@, ".ico"@);
            assert((".ico"@).subrange(0, 4)[1] != (".xml"@)[1]);
        }
        if has_suffix(path, ".woff2"@) {
            lemma_suffixes_nest(path, ".xml"@, ".woff2"@);
            assert((".woff2"@).subrange(2, 6)[0] != (".xml"@)[0]);
        }
        if has_suffix(path, ".woff"@) {
            lemma_suffixes_nest(path, ".xml"@, ".woff"@);
            assert((".woff"@).subrange(1, 5)[0] != (".xml"@)[0]);
        }
        if has_suffix(path, ".ttf"@) {
            lemma_suffixes_nest(path, ".xml"@, ".ttf"@);
            assert((".ttf"@).subrange(0, 4)[1] != (".xml"@)[1]);
        }
        if has_suffix(path, ".txt"@) {
            lemma_suffixes_nest(path, ".xml"@, ".txt"@);
            assert((".txt"@).subrange(0, 4)[1] != (".xml"@)[1]);
        }
    }
    if !(exists|k: int| 0 <= k < extensions().len() && has_suffix(path, #[trigger] extensions()[k])) {
        assert(!has_suffix(path, extensions()[0]));
        assert(!has_suffix(path, extensions()[1]));
        assert(!has_suffix(path, extensions()[2]));
        assert(!has_suffix(path, extensions()[3]));
        assert(!has_suffix(path, extensions()[4]));
        assert(!has_suffix(path, extensions()[5]));
        assert(!has_suffix(path, extensions()[6]));
        assert(!has_suffix(path, extensions()[7]));
        assert(!has_suffix(path, extensions()[8]));
        assert(!has_suffix(path, extensions()[9]));
        assert(!has_suffix(path, extensions()[10]));
        assert(!has_suffix(path, extensions()[11]));
        assert(!has_suffix(path, extensions()[12]));
        assert(!has_suffix(path, extensions()[13]));
        assert(!has_suffix(path, extensions()[14]));
    }
}

/// The extensions the media-type table knows.
pub open spec fn extensions() -> Seq<Seq<char>> {
    seq![".html"@, ".css"@, ".js"@, ".mjs"@, ".json"@, ".svg"@, ".png"@, ".jpg"@, ".jpeg"@, ".ico"@, ".woff2"@, ".woff"@, ".ttf"@, ".txt"@, ".xml"@]
}

/// The media type of the file at `path`.
pub fn mime_for_path(path: &str) -> (r: &'static str)
    ensures
        r@ == mime_of(path@),
{
    if ends_with(path, ".html") {
        "text/html; charset=utf-8"
    } else if ends_with(path, ".css") {
        "text/css; charset=utf-8"
    } else if ends_with(path, ".js") || ends_with(path, ".mjs") {
        "application/javascript; charset=utf-8"
    } else if ends_with(path, ".json") {
        "application/json"
    } else if ends_with(path, ".svg") {
        "image/svg+xml"
    } else if ends_with(path, ".png") {
        "image/png"
    } else if ends_with(path, ".jpg") || ends_with(path, ".jpeg") {
        "image/jpeg"
    } else if ends_with(path, ".ico") {
        "image/x-icon"
    } else if ends_with(path, ".woff2") {
        "font/woff2"
    } else if ends_with(path, ".woff") {
        "font/woff"
    } else if ends_with(path, ".ttf") {
        "font/ttf"
    } else if ends_with(path, ".txt") {
        "text/plain; charset=utf-8"
    } else if ends_with(path, ".xml") {
        "application/xml"
    } else {
        "application/octet-stream"
    }
}

/// `s` without its leading slashes.
pub open spec fn strip_leading_slashes(s: Seq<char>) -> Seq<char>
    decreases s.len(),
{
    if s.len() > 0 && s[0] == '/' {
        strip_leading_slashes(s.drop_first())
    } else {
        s
    }
}

/// `s` without its trailing slashes.
pub open spec fn strip_trailing_slashes(s: Seq<char>) -> Seq<char>
    decreases s.len(),
{
    if s.len() > 0 && s.last() == '/' {
        strip_trailing_slashes(s.drop_last())
    } else {
        s
    }
}

/// The file a request path names: the path without leading slashes, or the index
/// page for the root.
pub open spec fn request_file(raw: Seq<char>) -> Seq<char> {
    if strip_leading_slashes(raw).len() == 0 {
        "index.html"@
    } else {
        strip_leading_slashes(raw)
    }
}

proof fn lemma_strip_leading(s: Seq<char>, k: int)
    requires
        0 <= k <= s.len(),
        forall|i: int| 0 <= i < k ==> s[i] == '/',
        k < s.len() ==> s[k] != '/',
    ensures
        strip_leading_slashes(s) == s.subrange(k, s.len() as int),
    decreases s.len(),
{
    if s.len() > 0 && s[0] == '/' {
        assert(k > 0);
        let t = s.drop_first();
        assert forall|i: int| 0 <= i < k - 1 implies t[i] == '/' by {
            assert(t[i] == s[i + 1]);
        }
        lemma_strip_leading(t, k - 1);
        assert(t.subrange(k - 1, t.len() as int) =~= s.subrange(k, s.len() as int));
    } else {
        assert(k == 0);
        assert(s.subrange(0, s.len() as int) =~= s);
    }
}

proof fn lemma_strip_trailing(s: Seq<char>, k: int)
    requires
        0 <= k <= s.len(),
        forall|i: int| k <= i < s.len() ==> s[i] == '/',
        k > 0 ==> s[k - 1] != '/',
    ensures
        strip_trailing_slashes(s) == s.subrange(0, k),
    decreases s.len(),
{
    if s.len() > 0 && s.last() == '/' {
        assert(k < s.len());
        let t = s.drop_last();
        lemma_strip_trailing(t, k);
        assert(t.subrange(0, k) =~= s.subrange(0, k));
    } else {
        assert(k == s.len());
        assert(s.subrange(0, k) =~= s);
    }
}

fn strip_leading_slashes_exec(s: &Vec<char>) -> (r: Vec<char>)
    ensures
        r@ == strip_leading_slashes(s@),
{
    let n = s.len();
    let mut k: usize = 0;
    while k < n && s[k] == '/'
        invariant
            n == s.len(),
            k <= n,
            forall|i: int| 0 <= i < k ==> s@[i] == '/',
        decreases n - k,
    {
        k = k + 1;
    }
    let mut r: Vec<char> = Vec::new();
    let mut j: usize = k;
    while j < n
        invariant
            n == s.len(),
            k <= j <= n,
            r@ == s@.subrange(k as int, j as int),
        decreases n - j,
    {
        r.push(s[j]);
        j = j + 1;
        assert(r@ =~= s@.subrange(k as int, j as int));
    }
    proof {
        lemma_strip_leading(s@, k as int);
    }
    r
}

fn strip_trailing_slashes_exec(s: &Vec<char>) -> (r: Vec<char>)
    ensures
        r@ == strip_trailing_slashes(s@),
{
    let n = s.len();
    let mut k: usize = n;
    while k > 0 && s[k - 1] == '/'
        invariant
            n == s.len(),
            k <= n,
            forall|i: int| k <= i < n ==> s@[i] == '/',
        decreases k,
    {
        k = k - 1;
    }
    let mut r: Vec<char> = Vec::new();
    let mut j: usize = 0;
    while j < k
        invariant
            n == s.len(),
            j <= k <= n,
            r@ == s@.subrange(0, j as int),
        decreases k - j,
    {
        r.push(s[j]);
        j = j + 1;
        assert(r@ =~= s@.subrange(0, j as int));
    }
    proof {
        lemma_strip_trailing(s@, k as int);
    }
    r
}

/// The embedded files tried, in order, for request path `raw`: the file it names,
/// that name as a directory's index page, that name with `.html`, and the root index
/// page as the fallback of a single-page application.
pub fn static_candidates(raw: &str) -> (r: Vec<String>)
    ensures
        r@.len() == 4,
        r@[0]@ == request_file(raw@),
        r@[1]@ == strip_trailing_slashes(request_file(raw@)) + "/index.html"@,
        r@[2]@ == request_file(raw@) + ".html"@,
        r@[3]@ == "index.html"@,
{
    let chars = chars_of(raw);
    let stripped = strip_leading_slashes_exec(&chars);
    let path = if stripped.len() == 0 {
        String::from_str("index.html")
    } else {
        string_from_chars(&stripped)
    };
    let path_chars = chars_of(path.as_str());
    let dir = strip_trailing_slashes_exec(&path_chars);
    let dir_string = string_from_chars(&dir);
    let mut r: Vec<String> = Vec::new();
    r.push(path.clone());
    r.push(concat2(dir_string.as_str(), "/index.html"));
    r.push(concat2(path.as_str(), ".html"));
    r.push(String::from_str("index.html"));
    r
}

/// Index `i` is the first of `exists` that holds.
pub open spec fn first_existing(exists: Seq<bool>, i: int) -> bool {
    &&& 0 <= i < exists.len()
    &&& exists[i]
    &&& forall|j: int| 0 <= j < i ==> !exists[j]
}

/// Which of the candidates of `static_candidates` is served, given which of them
/// exist among the embedded files: the first that exists; none (the request is
/// answered "not found") when none does.
pub fn served_candidate(exists: &Vec<bool>) -> (r: Option<usize>)
    requires
        exists@.len() == 4,
    ensures
        r matches Some(i) ==> first_existing(exists@, i as int),
        r is None ==> forall|j: int| 0 <= j < exists@.len() ==> !exists@[j],
{
    let mut i: usize = 0;
    while i < exists.len()
        invariant
            i <= exists.len(),
            forall|j: int| 0 <= j < i ==> !exists@[j],
        decreases exists.len() - i,
    {
        if exists[i] {
            return Some(i);
        }
        i = i + 1;
    }
    None
}

} // verus!
