//! How the placeholders of a preview page are filled in.

use crate::observer::FileFormat;
use crate::server::{page_of, MILLISECONDS_PER_MINUTE, PLACEHOLDER, PREVIEW_TEMPLATE};
use crate::text::{decimal, replace_first};
use vstd::prelude::*;

verus! {

/// Whether `pat` does not occur in `s`.
pub open spec fn free_of(s: Seq<char>, pat: char) -> bool {
    forall|i: int| 0 <= i < s.len() ==> s[i] != pat
}

/// Replacing in a text without the pattern changes nothing.
pub proof fn lemma_replace_without_match(s: Seq<char>, pat: char, to: Seq<char>, count: nat)
    requires
        free_of(s, pat),
    ensures
        replace_first(s, pat, to, count) == s,
    decreases s.len(),
{
    if count != 0 && s.len() != 0 {
        lemma_replace_without_match(s.drop_first(), pat, to, count);
    }
}

/// Replacing passes over a beginning without the pattern.
pub proof fn lemma_replace_after_prefix(
    head: Seq<char>,
    tail: Seq<char>,
    pat: char,
    to: Seq<char>,
    count: nat,
)
    requires
        free_of(head, pat),
    ensures
        replace_first(head + tail, pat, to, count) == head + replace_first(tail, pat, to, count),
    decreases head.len(),
{
    if head.len() != 0 && count != 0 {
        assert((head + tail).drop_first() =~= head.drop_first() + tail);
        lemma_replace_after_prefix(head.drop_first(), tail, pat, to, count);
    }
}

/// Replacing once fills the first occurrence and leaves the rest alone.
pub proof fn lemma_replace_one(head: Seq<char>, tail: Seq<char>, pat: char, to: Seq<char>)
    requires
        free_of(head, pat),
    ensures
        replace_first(head + seq![pat] + tail, pat, to, 1) == head + to + tail,
{
    let rest = seq![pat] + tail;
    assert(head + seq![pat] + tail =~= head + rest);
    lemma_replace_after_prefix(head, rest, pat, to, 1);
    assert(rest.drop_first() =~= tail);
    assert(replace_first(rest, pat, to, 1) == to + replace_first(tail, pat, to, 0));
}

/// Replacing twice fills the first two occurrences and leaves the rest
/// alone.
pub proof fn lemma_replace_two(
    head: Seq<char>,
    middle: Seq<char>,
    tail: Seq<char>,
    pat: char,
    to: Seq<char>,
)
    requires
        free_of(head, pat),
        free_of(middle, pat),
    ensures
        replace_first(head + seq![pat] + middle + seq![pat] + tail, pat, to, 2) == head + to
            + middle + to + tail,
{
    let second = middle + seq![pat] + tail;
    let rest = seq![pat] + second;
    assert(head + seq![pat] + middle + seq![pat] + tail =~= head + rest);
    lemma_replace_after_prefix(head, rest, pat, to, 2);
    assert(rest.drop_first() =~= second);
    lemma_replace_one(middle, tail, pat, to);
}

/// A number in decimal holds digits only, so not the placeholder.
pub proof fn lemma_decimal_has_no_placeholder(n: nat)
    ensures
        free_of(decimal(n), PLACEHOLDER),
    decreases n,
{
    if n >= 10 {
        lemma_decimal_has_no_placeholder(n / 10);
    }
}

/// The placeholders of a template are filled in order: in a template of
/// six parts with one placeholder between each two, the address takes the
/// first place, the port the second, the image format the third and the
/// fourth, and the interval in milliseconds the fifth; the parts stay as
/// they are. This holds when neither the parts, nor the address, nor the
/// format hold a placeholder themselves.
pub proof fn lemma_page_is_filled_in_order(
    parts: Seq<Seq<char>>,
    server_ip: Seq<char>,
    port: u16,
    file_format: Seq<char>,
    interval: u16,
)
    requires
        parts.len() == 6,
        forall|k: int| 0 <= k < 6 ==> free_of(#[trigger] parts[k], PLACEHOLDER),
        free_of(server_ip, PLACEHOLDER),
        free_of(file_format, PLACEHOLDER),
    ensures
        page_of(
            parts[0] + seq![PLACEHOLDER] + parts[1] + seq![PLACEHOLDER] + parts[2] + seq![
                PLACEHOLDER,
            ] + parts[3] + seq![PLACEHOLDER] + parts[4] + seq![PLACEHOLDER] + parts[5],
            server_ip,
            port,
            file_format,
            interval,
        ) == parts[0] + server_ip + parts[1] + decimal(port as nat) + parts[2] + file_format
            + parts[3] + file_format + parts[4] + decimal(
            (interval * MILLISECONDS_PER_MINUTE) as nat,
        ) + parts[5],
{
    let hole = seq![PLACEHOLDER];
    let number = decimal(port as nat);
    let refresh = decimal((interval * MILLISECONDS_PER_MINUTE) as nat);
    lemma_decimal_has_no_placeholder(port as nat);
    lemma_decimal_has_no_placeholder((interval * MILLISECONDS_PER_MINUTE) as nat);

    let template = parts[0] + hole + parts[1] + hole + parts[2] + hole + parts[3] + hole
        + parts[4] + hole + parts[5];
    // the address
    let after_first = parts[1] + hole + parts[2] + hole + parts[3] + hole + parts[4] + hole
        + parts[5];
    assert(template =~= parts[0] + hole + after_first);
    lemma_replace_one(parts[0], after_first, PLACEHOLDER, server_ip);
    let with_ip = replace_first(template, PLACEHOLDER, server_ip, 1);
    // the port
    let head_two = parts[0] + server_ip + parts[1];
    let after_second = parts[2] + hole + parts[3] + hole + parts[4] + hole + parts[5];
    assert(with_ip =~= head_two + hole + after_second);
    lemma_replace_one(head_two, after_second, PLACEHOLDER, number);
    let with_port = replace_first(with_ip, PLACEHOLDER, number, 1);
    // the format, twice
    let head_three = head_two + number + parts[2];
    let after_fourth = parts[4] + hole + parts[5];
    assert(with_port =~= head_three + hole + parts[3] + hole + after_fourth);
    lemma_replace_two(head_three, parts[3], after_fourth, PLACEHOLDER, file_format);
    let with_format = replace_first(with_port, PLACEHOLDER, file_format, 2);
    // the interval
    let head_five = head_three + file_format + parts[3] + file_format + parts[4];
    assert(with_format =~= head_five + hole + parts[5]);
    lemma_replace_one(head_five, parts[5], PLACEHOLDER, refresh);
}

/// The preview page up to the advertised address.
pub const PAGE_UP_TO_ADDRESS: &'static str =
    "<!DOCTYPE html>\n<html lang=\"en\">\n<head>\n\
    <meta charset=\"utf-8\">\n<title>Observer</title>\n\
    </head>\n<body>\n<img id=\"observed\" src=\"/update\" alt=\"latest capture\">\n\
    <script>\nconst origin = \"http://";

/// The preview page between the advertised address and the port.
pub const PAGE_UP_TO_PORT: &'static str = ":";

/// The preview page between the port and the name of the query parameter.
pub const PAGE_UP_TO_PARAMETER: &'static str =
    "\";\nconst image = document.getElementById(\"observed\");\n\
    function reload() {\n    image.src = origin + \"/update?";

/// The preview page between the name of the query parameter and the suffix of
/// the file.
pub const PAGE_UP_TO_SUFFIX: &'static str =
    "=\" + Date.now();\n    image.title = \"observed.";

/// The preview page between the suffix of the file and the milliseconds
/// between two reloads.
pub const PAGE_UP_TO_REFRESH: &'static str = "\";\n}\nreload();\nsetInterval(reload, ";

/// The preview page behind the milliseconds between two reloads.
pub const PAGE_END: &'static str = ");\n</script>\n</body>\n</html>\n";

/// The six parts of the built-in preview page, in order.
pub open spec fn template_parts() -> Seq<Seq<char>> {
    seq![
        PAGE_UP_TO_ADDRESS@,
        PAGE_UP_TO_PORT@,
        PAGE_UP_TO_PARAMETER@,
        PAGE_UP_TO_SUFFIX@,
        PAGE_UP_TO_REFRESH@,
        PAGE_END@,
    ]
}

/// The built-in preview page is six parts with one placeholder between each
/// two, five in all, and no part holds a placeholder.
pub proof fn lemma_template_is_six_parts()
    ensures
        PREVIEW_TEMPLATE@ == PAGE_UP_TO_ADDRESS@ + seq![PLACEHOLDER] + PAGE_UP_TO_PORT@ + seq![
            PLACEHOLDER,
        ] + PAGE_UP_TO_PARAMETER@ + seq![PLACEHOLDER] + PAGE_UP_TO_SUFFIX@ + seq![PLACEHOLDER]
            + PAGE_UP_TO_REFRESH@ + seq![PLACEHOLDER] + PAGE_END@,
        forall|k: int| 0 <= k < 6 ==> free_of(#[trigger] template_parts()[k], PLACEHOLDER),
{
    // each text is revealed by its literal, which Verus holds against the constant
    reveal_strlit(
        "<!DOCTYPE html>
<html lang=\"en\">
<head>
<meta charset=\"utf-8\">
<title>Observer</title>
</head>
<body>
<img id=\"observed\" src=\"/update\" alt=\"latest capture\">
<script>
const origin = \"http://#:#\";
const image = document.getElementById(\"observed\");
function reload() {
    image.src = origin + \"/update?#=\" + Date.now();
    image.title = \"observed.#\";
}
reload();
setInterval(reload, #);
</script>
</body>
</html>
",
    );
    reveal_strlit(
        "<!DOCTYPE html>\n<html lang=\"en\">\n<head>\n\
        <meta charset=\"utf-8\">\n<title>Observer</title>\n\
        </head>\n<body>\n<img id=\"observed\" src=\"/update\" alt=\"latest capture\">\n\
        <script>\nconst origin = \"http://",
    );
    reveal_strlit(":");
    reveal_strlit(
        "\";\nconst image = document.getElementById(\"observed\");\n\
        function reload() {\n    image.src = origin + \"/update?",
    );
    reveal_strlit("=\" + Date.now();\n    image.title = \"observed.");
    reveal_strlit("\";\n}\nreload();\nsetInterval(reload, ");
    reveal_strlit(");\n</script>\n</body>\n</html>\n");
    assert(PREVIEW_TEMPLATE@ =~= PAGE_UP_TO_ADDRESS@ + seq![PLACEHOLDER] + PAGE_UP_TO_PORT@
        + seq![PLACEHOLDER] + PAGE_UP_TO_PARAMETER@ + seq![PLACEHOLDER] + PAGE_UP_TO_SUFFIX@
        + seq![PLACEHOLDER] + PAGE_UP_TO_REFRESH@ + seq![PLACEHOLDER] + PAGE_END@);
}

/// The names of the image formats hold no placeholder.
pub proof fn lemma_format_has_no_placeholder(format: FileFormat)
    ensures
        free_of(format.spec_extension(), PLACEHOLDER),
{
    reveal_strlit("png");
    reveal_strlit("jpeg");
}

/// The page that is served: the built-in page with the advertised address
/// in the first place, the port of the listener in the second, the name of
/// the image format in the third and the fourth, and the interval in
/// milliseconds in the fifth, for every address that holds no placeholder
/// itself.
pub proof fn lemma_served_page_is_filled_in_order(
    server_ip: Seq<char>,
    port: u16,
    format: FileFormat,
    interval: u16,
)
    requires
        free_of(server_ip, PLACEHOLDER),
    ensures
        page_of(PREVIEW_TEMPLATE@, server_ip, port, format.spec_extension(), interval)
            == PAGE_UP_TO_ADDRESS@ + server_ip + PAGE_UP_TO_PORT@ + decimal(port as nat)
            + PAGE_UP_TO_PARAMETER@ + format.spec_extension() + PAGE_UP_TO_SUFFIX@
            + format.spec_extension() + PAGE_UP_TO_REFRESH@ + decimal(
            (interval * MILLISECONDS_PER_MINUTE) as nat,
        ) + PAGE_END@,
{
    lemma_template_is_six_parts();
    lemma_format_has_no_placeholder(format);
    lemma_page_is_filled_in_order(
        template_parts(),
        server_ip,
        port,
        format.spec_extension(),
        interval,
    );
}

} // verus!
