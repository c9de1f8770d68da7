//! Results as text.
//!
//! The formatter turns the results of a run into the text that is shown or
//! stored: the bare contents, comma-separated values, or a report with every
//! detail. It writes nothing itself; what it returns is for the caller to
//! print or to store.

use crate::clock::{now_millis, spec_utc_text, utc_text};
use crate::error::QRDecodeError;
use crate::text::{
    decimal, decimal_text, halves, halves_text, rounded_ratio, rounded_ratio_of, signed_decimal,
    signed_decimal_text, spec_lines_of, thousandths, thousandths_text,
};
use crate::types::{
    Corner, OutputFormat, PositionModel, ProcessingConfig, QRCodeResult, QRPosition,
};
use vstd::prelude::*;
use vstd::utf8::encode_utf8;

verus! {

/// A field with each double quote in it written twice.
pub open spec fn spec_doubled(field: Seq<char>) -> Seq<char>
    decreases field.len(),
{
    if field.len() == 0 {
        Seq::empty()
    } else if field.last() == '"' {
        spec_doubled(field.drop_last()) + "\"\""@
    } else {
        spec_doubled(field.drop_last()).push(field.last())
    }
}

/// Whether a field cannot stand bare in a line of comma-separated values:
/// it holds a comma, a double quote or a line break.
pub open spec fn spec_needs_quoting(field: Seq<char>) -> bool {
    field.contains(',') || field.contains('"') || field.contains('\n')
}

/// A field as it stands in a line of comma-separated values: between double
/// quotes, with its own double quotes written twice, where it cannot stand
/// bare.
pub open spec fn spec_escape(field: Seq<char>) -> Seq<char> {
    if spec_needs_quoting(field) {
        "\""@ + spec_doubled(field) + "\""@
    } else {
        field
    }
}

/// The place of a code as the plain listing shows it.
pub open spec fn spec_placement(p: PositionModel) -> Seq<char> {
    " [位置: ("@ + signed_decimal(p.x) + ", "@ + signed_decimal(p.y) + "), 大小: "@ + signed_decimal(
        p.width,
    ) + "x"@ + signed_decimal(p.height) + "]"@
}

/// One result of the plain listing. Where the listing has several, each
/// stands under a numbered heading and ends its line.
pub open spec fn spec_text_entry(r: QRCodeResult, index: nat, many: bool, show_position: bool) -> Seq<
    char,
> {
    (if many {
        "=== 二维码 "@ + decimal(index + 1) + " ===\n"@
    } else {
        Seq::<char>::empty()
    }) + r.content@ + (if show_position {
        spec_placement(r.position@)
    } else {
        Seq::<char>::empty()
    }) + (if many {
        "\n"@
    } else {
        Seq::<char>::empty()
    })
}

/// The first `n` results of the plain listing.
pub open spec fn spec_text(results: Seq<QRCodeResult>, n: nat, show_position: bool) -> Seq<char>
    decreases n,
{
    if n == 0 {
        Seq::empty()
    } else {
        spec_text(results, (n - 1) as nat, show_position) + spec_text_entry(
            results[n - 1],
            (n - 1) as nat,
            results.len() > 1,
            show_position,
        )
    }
}

/// The heading of the comma-separated values.
pub open spec fn spec_csv_header(show_position: bool) -> Seq<char> {
    if show_position {
        "content,confidence,type,timestamp,x,y,width,height\n"@
    } else {
        "content,confidence,type,timestamp\n"@
    }
}

/// One line of comma-separated values: the content, the confidence to three
/// places, the kind of symbol and the moment `stamp` between double quotes,
/// then the bounding box where positions are shown.
pub open spec fn spec_csv_row(r: QRCodeResult, stamp: Seq<char>, show_position: bool) -> Seq<char> {
    spec_escape(r.content@) + ","@ + thousandths(r.confidence as nat) + ","@ + r.qr_type@ + ",\""@
        + stamp + "\""@ + (if show_position {
        ","@ + signed_decimal(r.position.x as int) + ","@ + signed_decimal(r.position.y as int)
            + ","@ + signed_decimal(r.position.width as int) + ","@ + signed_decimal(
            r.position.height as int,
        )
    } else {
        Seq::<char>::empty()
    }) + "\n"@
}

/// The moment at which a result was produced, as a text; empty where the
/// moment cannot be named.
pub open spec fn spec_stamp(r: QRCodeResult) -> Seq<char> {
    match spec_utc_text(r.timestamp) {
        Some(t) => t,
        None => Seq::empty(),
    }
}

/// Whether the moment of every result can be named.
pub open spec fn spec_stamped(results: Seq<QRCodeResult>) -> bool {
    forall|i: int| 0 <= i < results.len() ==> spec_utc_text((#[trigger] results[i]).timestamp) is Some
}

/// The lines of the first `n` results as comma-separated values.
pub open spec fn spec_csv_rows(results: Seq<QRCodeResult>, n: nat, show_position: bool) -> Seq<char>
    decreases n,
{
    if n == 0 {
        Seq::empty()
    } else {
        spec_csv_rows(results, (n - 1) as nat, show_position) + spec_csv_row(
            results[n - 1],
            spec_stamp(results[n - 1]),
            show_position,
        )
    }
}

/// The bytes that the contents of the first `n` results take in UTF-8.
pub open spec fn spec_total_bytes(results: Seq<QRCodeResult>, n: nat) -> nat
    decreases n,
{
    if n == 0 {
        0
    } else {
        spec_total_bytes(results, (n - 1) as nat) + encode_utf8(results[n - 1].content@).len()
    }
}

/// The confidences of the first `n` results, added up.
pub open spec fn spec_total_confidence(results: Seq<QRCodeResult>, n: nat) -> nat
    decreases n,
{
    if n == 0 {
        0
    } else {
        spec_total_confidence(results, (n - 1) as nat) + results[n - 1].confidence as nat
    }
}

/// The mean confidence of the results in thousandths, rounded to the
/// nearest; zero where there are none.
pub open spec fn spec_mean_confidence(results: Seq<QRCodeResult>) -> nat {
    rounded_ratio(spec_total_confidence(results, results.len()), results.len(), 1)
}

/// The lines that sum a run up: whether anything was found, and in a
/// verbose run the mean confidence and the length of all contents.
pub open spec fn spec_summary(results: Seq<QRCodeResult>, verbose: bool) -> Seq<Seq<char>> {
    if results.len() == 0 {
        seq!["❌ 未检测到二维码"@]
    } else if verbose {
        seq![
            "✅ 成功检测到 "@ + decimal(results.len()) + " 个二维码"@,
            "   平均置信度: "@ + thousandths(spec_mean_confidence(results)),
            "   总内容长度: "@ + decimal(spec_total_bytes(results, results.len())) + " 字符"@,
        ]
    } else {
        seq!["✅ 成功检测到 "@ + decimal(results.len()) + " 个二维码"@]
    }
}

/// A field with each double quote in it written twice.
pub fn doubled(field: &str) -> (text: String)
    ensures
        text@ == spec_doubled(field@),
{
    let n: usize = field.unicode_len();
    let mut text = String::new();
    let mut i: usize = 0;
    while i < n
        invariant
            i <= n,
            n == field@.len(),
            text@ == spec_doubled(field@.subrange(0, i as int)),
        decreases n - i,
    {
        let c: char = field.get_char(i);
        proof {
            let next = field@.subrange(0, i + 1);
            assert(next.drop_last() =~= field@.subrange(0, i as int));
            assert(next.last() == c);
        }
        if c == '"' {
            text.append("\"\"");
        } else {
            text.push(c);
        }
        i += 1;
    }
    assert(field@.subrange(0, n as int) =~= field@);
    text
}

/// Whether `wanted` occurs in `field`.
pub fn holds(field: &str, wanted: char) -> (found: bool)
    ensures
        found == field@.contains(wanted),
{
    let n: usize = field.unicode_len();
    let mut i: usize = 0;
    while i < n
        invariant
            i <= n,
            n == field@.len(),
            forall|j: int| 0 <= j < i ==> field@[j] != wanted,
        decreases n - i,
    {
        if field.get_char(i) == wanted {
            assert(field@[i as int] == wanted);
            return true;
        }
        i += 1;
    }
    false
}

/// The place of a code as the plain listing shows it.
pub fn placement(position: &QRPosition) -> (text: String)
    ensures
        text@ == spec_placement(position@),
{
    String::from_str(" [位置: (").concat(signed_decimal_text(position.x as i128).as_str()).concat(
        ", ",
    ).concat(signed_decimal_text(position.y as i128).as_str()).concat("), 大小: ").concat(
        signed_decimal_text(position.width as i128).as_str(),
    ).concat("x").concat(signed_decimal_text(position.height as i128).as_str()).concat("]")
}

/// The mean of `count` confidences that add up to `total`, rounded to the
/// nearest; zero where there are none.
fn mean(total: u128, count: usize) -> (m: u128)
    requires
        total <= count * 0xffff_ffff,
    ensures
        m == rounded_ratio(total as nat, count as nat, 1),
{
    if count == 0 {
        0
    } else {
        assert(count * 0xffff_ffff <= 0xffff_ffff_ffff_ffff * 0xffff_ffff) by (nonlinear_arith)
            requires
                count <= 0xffff_ffff_ffff_ffff,
        ;
        assert(2 * (total as int) * 1 == 2 * total);
        (2 * total + count as u128) / (2 * count as u128)
    }
}

/// The longest content that a report previews whole, in characters.
pub const PREVIEW_LIMIT: usize = 100;

/// The characters that a report keeps of a longer content.
pub const PREVIEW_KEPT: usize = 97;

/// One corner of a code as a line of the report.
pub open spec fn spec_corner_line(corner: Corner, index: nat) -> Seq<char> {
    "│   角点 "@ + decimal(index + 1) + ": ("@ + signed_decimal(corner.0 as int) + ".0, "@
        + signed_decimal(corner.1 as int) + ".0)\n"@
}

/// The first `n` corners of a code as lines of the report.
pub open spec fn spec_corner_lines(corners: Seq<Corner>, n: nat) -> Seq<char>
    decreases n,
{
    if n == 0 {
        Seq::empty()
    } else {
        spec_corner_lines(corners, (n - 1) as nat) + spec_corner_line(corners[n - 1], (n - 1) as nat)
    }
}

/// What the report says of the corners of a code: how many there are, and
/// each on a line; nothing where they are not known.
pub open spec fn spec_corners_part(corners: Option<Seq<Corner>>) -> Seq<char> {
    match corners {
        Some(c) => "│ 角点数量: "@ + decimal(c.len()) + "\n"@ + spec_corner_lines(c, c.len()),
        None => Seq::empty(),
    }
}

/// What a report shows of a content: all of it up to `PREVIEW_LIMIT`
/// characters, else its first `PREVIEW_KEPT` and three dots.
pub open spec fn spec_preview(content: Seq<char>) -> Seq<char> {
    if content.len() > PREVIEW_LIMIT {
        content.subrange(0, PREVIEW_KEPT as int) + "..."@
    } else {
        content
    }
}

/// Where the first line of a text ends: at its first line feed, or at the
/// end of the text where it has none.
pub open spec fn spec_line_end(s: Seq<char>) -> nat
    decreases s.len(),
{
    if s.len() == 0 || s[0] == '\n' {
        0
    } else {
        1 + spec_line_end(s.subrange(1, s.len() as int))
    }
}

/// A text line by line, each line behind the left edge of the frame. A line
/// ends at a line feed, and a carriage return just before the line feed is
/// no part of the line.
pub open spec fn spec_framed(s: Seq<char>) -> Seq<char>
    decreases s.len(),
{
    if s.len() == 0 {
        Seq::empty()
    } else {
        let k = spec_line_end(s) as int;
        if k < s.len() {
            let body = if k > 0 && s[k - 1] == '\r' {
                s.subrange(0, k - 1)
            } else {
                s.subrange(0, k)
            };
            "│   "@ + body + "\n"@ + spec_framed(s.subrange(k + 1, s.len() as int))
        } else {
            "│   "@ + s + "\n"@
        }
    }
}

/// The first line of a text ends at the first line feed.
pub proof fn lemma_line_end(s: Seq<char>, k: int)
    requires
        0 <= k <= s.len(),
        forall|j: int| 0 <= j < k ==> s[j] != '\n',
        k < s.len() ==> s[k] == '\n',
    ensures
        spec_line_end(s) == k,
    decreases k,
{
    if k > 0 {
        let rest = s.subrange(1, s.len() as int);
        assert forall|j: int| 0 <= j < k - 1 implies rest[j] != '\n' by {
            assert(rest[j] == s[j + 1]);
        }
        lemma_line_end(rest, k - 1);
    }
}

/// What the report says of one result up to its corners: the kind of
/// symbol, the confidence, the moment `stamp`, and the bounding box with its
/// area and centre.
pub open spec fn spec_entry_head(r: QRCodeResult, stamp: Seq<char>, index: nat) -> Seq<char> {
    "┌─ 二维码 #"@ + decimal(index + 1) + " ─────────────────────────────────────┐\n"@
        + "│ 类型: "@ + r.qr_type@ + "\n"@ + "│ 置信度: "@ + thousandths(r.confidence as nat) + "\n"@
        + "│ 解码时间: "@ + stamp + "\n"@ + "│ 位置: ("@ + signed_decimal(r.position.x as int) + ", "@
        + signed_decimal(r.position.y as int) + ")\n"@ + "│ 大小: "@ + signed_decimal(
        r.position.width as int,
    ) + " x "@ + signed_decimal(r.position.height as int) + " 像素\n"@ + "│ 面积: "@ + signed_decimal(
        r.position@.area(),
    ) + " 平方像素\n"@ + "│ 中心点: ("@ + halves(r.position@.center().0) + ", "@ + halves(
        r.position@.center().1,
    ) + ")\n"@
}

/// What the report says of the content of one result: its length in bytes,
/// the length of the undecoded payload where there is one, and a preview.
pub open spec fn spec_entry_content(r: QRCodeResult) -> Seq<char> {
    "│ 内容长度: "@ + decimal(encode_utf8(r.content@).len()) + " 字符\n"@ + (match r.raw_bytes {
        Some(b) => "│ 原始字节长度: "@ + decimal(b@.len()) + " 字节\n"@,
        None => Seq::<char>::empty(),
    }) + "│ 内容预览:\n"@ + spec_framed(spec_preview(r.content@))
        + "└─────────────────────────────────────────────────┘\n"@
}

/// One result of the report, in its frame. A blank line parts it from the
/// next.
#[verifier::opaque]
pub open spec fn spec_verbose_entry(r: QRCodeResult, stamp: Seq<char>, index: nat, last: bool) -> Seq<
    char,
> {
    spec_entry_head(r, stamp, index) + spec_corners_part(r.position@.corners) + spec_entry_content(r)
        + (if last {
        Seq::<char>::empty()
    } else {
        "\n"@
    })
}

/// The first `n` results of the report.
pub open spec fn spec_verbose_entries(results: Seq<QRCodeResult>, n: nat) -> Seq<char>
    decreases n,
{
    if n == 0 {
        Seq::empty()
    } else {
        spec_verbose_entries(results, (n - 1) as nat) + spec_verbose_entry(
            results[n - 1],
            spec_stamp(results[n - 1]),
            (n - 1) as nat,
            n == results.len(),
        )
    }
}

/// The areas of the bounding boxes of the first `n` results, added up.
pub open spec fn spec_total_area(results: Seq<QRCodeResult>, n: nat) -> int
    decreases n,
{
    if n == 0 {
        0
    } else {
        spec_total_area(results, (n - 1) as nat) + results[n - 1].position@.area()
    }
}

/// The head of the report: its title, the moment `generated` at which it
/// was made, and the number of results.
pub open spec fn spec_verbose_head(generated: Seq<char>, count: nat) -> Seq<char> {
    "二维码解码结果报告\n"@ + "生成时间: "@ + generated + "\n"@ + "检测到的二维码数量: "@ + decimal(count)
        + "\n\n"@
}

/// The foot of the report: the number of results, their mean confidence,
/// and the lengths and areas added up.
pub open spec fn spec_verbose_tail(results: Seq<QRCodeResult>) -> Seq<char> {
    "\n📊 统计信息:\n"@ + "   • 总二维码数量: "@ + decimal(results.len()) + "\n"@ + "   • 平均置信度: "@
        + thousandths(spec_mean_confidence(results)) + "\n"@ + "   • 总内容长度: "@ + decimal(
        spec_total_bytes(results, results.len()),
    ) + " 字符\n"@ + "   • 总覆盖面积: "@ + signed_decimal(spec_total_area(results, results.len()))
        + " 平方像素\n"@
}

/// The whole report, made at the moment that `generated` names.
pub open spec fn spec_verbose(results: Seq<QRCodeResult>, generated: Seq<char>) -> Seq<char> {
    spec_verbose_head(generated, results.len()) + spec_verbose_entries(results, results.len())
        + spec_verbose_tail(results)
}

/// Whether `r` is what becomes of the report on `results` when it is made
/// `generated` milliseconds after the start of 1970: the report, or an
/// `OutputError` where that moment or the moment of a result cannot be
/// named.
pub open spec fn spec_verbose_outcome(
    results: Seq<QRCodeResult>,
    generated: i64,
    r: Result<String, QRDecodeError>,
) -> bool {
    &&& r is Ok <==> spec_utc_text(generated) is Some && spec_stamped(results)
    &&& r matches Ok(text) ==> text@ == spec_verbose(results, spec_utc_text(generated).unwrap())
    &&& r matches Err(e) ==> e is OutputError && e.detail() == "时间戳超出可表示的范围"@
}

/// The corners of a code as lines of the report.
pub fn corners_part(corners: &Option<Vec<Corner>>) -> (text: String)
    ensures
        text@ == spec_corners_part(
            match *corners {
                Some(c) => Some(c@),
                None => None,
            },
        ),
{
    match corners {
        Some(c) => {
            let mut text = String::from_str("│ 角点数量: ").concat(
                decimal_text(c.len() as u128).as_str(),
            ).concat("\n");
            let ghost head = text@;
            let mut i: usize = 0;
            while i < c.len()
                invariant
                    i <= c.len(),
                    text@ == head + spec_corner_lines(c@, i as nat),
                decreases c.len() - i,
            {
                let corner: Corner = c[i];
                let line = String::from_str("│   角点 ").concat(
                    decimal_text(i as u128 + 1).as_str(),
                ).concat(": (").concat(signed_decimal_text(corner.0 as i128).as_str()).concat(
                    ".0, ",
                ).concat(signed_decimal_text(corner.1 as i128).as_str()).concat(".0)\n");
                text.append(line.as_str());
                assert(text@ =~= head + (spec_corner_lines(c@, i as nat) + line@));
                i += 1;
            }
            text
        },
        None => String::new(),
    }
}

/// What a report shows of a content.
pub fn preview(content: &str) -> (text: String)
    ensures
        text@ == spec_preview(content@),
{
    if content.unicode_len() > PREVIEW_LIMIT {
        String::from_str(content.substring_char(0, PREVIEW_KEPT)).concat("...")
    } else {
        String::from_str(content)
    }
}

/// A text line by line, each line behind the left edge of the frame.
pub fn framed(s: &str) -> (text: String)
    ensures
        text@ == spec_framed(s@),
{
    let n: usize = s.unicode_len();
    let mut text = String::new();
    let mut start: usize = 0;
    let mut i: usize = 0;
    assert(s@.subrange(0, n as int) =~= s@);
    while i < n
        invariant
            start <= i <= n,
            n == s@.len(),
            forall|j: int| start <= j < i ==> s@[j] != '\n',
            text@ + spec_framed(s@.subrange(start as int, n as int)) == spec_framed(s@),
        decreases n - i,
    {
        if s.get_char(i) == '\n' {
            let end: usize = if i > start && s.get_char(i - 1) == '\r' {
                i - 1
            } else {
                i
            };
            let ghost open = s@.subrange(start as int, n as int);
            let ghost before = text@;
            proof {
                lemma_line_end(open, i - start);
                assert(open.subrange(0, end - start) =~= s@.subrange(start as int, end as int));
                assert(open.subrange(i - start + 1, open.len() as int) =~= s@.subrange(
                    i + 1,
                    n as int,
                ));
            }
            text = text.concat("│   ").concat(s.substring_char(start, end)).concat("\n");
            assert(before + spec_framed(open) =~= text@ + spec_framed(s@.subrange(i + 1, n as int)));
            start = i + 1;
        }
        i += 1;
    }
    if start < n {
        let ghost open = s@.subrange(start as int, n as int);
        let ghost before = text@;
        proof {
            lemma_line_end(open, n - start);
        }
        text = text.concat("│   ").concat(s.substring_char(start, n)).concat("\n");
        assert(before + spec_framed(open) =~= text@);
    } else {
        assert(text@ + spec_framed(s@.subrange(start as int, n as int)) =~= text@);
    }
    text
}

/// What the report says of one result up to its corners.
pub fn entry_head(result: &QRCodeResult, stamp: &str, index: usize) -> (text: String)
    ensures
        text@ == spec_entry_head(*result, stamp@, index as nat),
{
    let center = result.position.center();
    String::from_str("┌─ 二维码 #").concat(decimal_text(index as u128 + 1).as_str()).concat(
        " ─────────────────────────────────────┐\n",
    ).concat("│ 类型: ").concat(result.qr_type.as_str()).concat("\n").concat("│ 置信度: ").concat(
        thousandths_text(result.confidence as u128).as_str(),
    ).concat("\n").concat("│ 解码时间: ").concat(stamp).concat("\n").concat("│ 位置: (").concat(
        signed_decimal_text(result.position.x as i128).as_str(),
    ).concat(", ").concat(signed_decimal_text(result.position.y as i128).as_str()).concat(")\n").concat(
        "│ 大小: ",
    ).concat(signed_decimal_text(result.position.width as i128).as_str()).concat(" x ").concat(
        signed_decimal_text(result.position.height as i128).as_str(),
    ).concat(" 像素\n").concat("│ 面积: ").concat(
        signed_decimal_text(result.position.area() as i128).as_str(),
    ).concat(" 平方像素\n").concat("│ 中心点: (").concat(halves_text(center.0).as_str()).concat(
        ", ",
    ).concat(halves_text(center.1).as_str()).concat(")\n")
}

/// What the report says of the content of one result.
pub fn entry_content(result: &QRCodeResult) -> (text: String)
    ensures
        text@ == spec_entry_content(*result),
{
    let mut text = String::from_str("│ 内容长度: ").concat(
        decimal_text(result.content.as_str().as_bytes().len() as u128).as_str(),
    ).concat(" 字符\n");
    let ghost head = text@;
    match &result.raw_bytes {
        Some(b) => {
            let line = String::from_str("│ 原始字节长度: ").concat(
                decimal_text(b.len() as u128).as_str(),
            ).concat(" 字节\n");
            text.append(line.as_str());
        },
        None => {},
    }
    let ghost middle = text@;
    text = text.concat("│ 内容预览:\n").concat(
        framed(preview(result.content.as_str()).as_str()).as_str(),
    ).concat("└─────────────────────────────────────────────────┘\n");
    proof {
        let raw = match &result.raw_bytes {
            Some(b) => "│ 原始字节长度: "@ + decimal(b@.len()) + " 字节\n"@,
            None => Seq::<char>::empty(),
        };
        assert(middle =~= head + raw);
    }
    text
}

/// One result of the report, in its frame, for a result that was produced
/// at the moment that `stamp` names.
pub fn verbose_entry(result: &QRCodeResult, stamp: &str, index: usize, last: bool) -> (text: String)
    ensures
        text@ == spec_verbose_entry(*result, stamp@, index as nat, last),
{
    let mut text = entry_head(result, stamp, index).concat(
        corners_part(&result.position.corners).as_str(),
    ).concat(entry_content(result).as_str());
    let ghost body = text@;
    if !last {
        text.append("\n");
    }
    proof {
        reveal(spec_verbose_entry);
        let gap = if last {
            Seq::<char>::empty()
        } else {
            "\n"@
        };
        assert(text@ =~= body + gap);
    }
    text
}

/// The head of the report.
pub fn verbose_head(generated: &str, count: usize) -> (text: String)
    ensures
        text@ == spec_verbose_head(generated@, count as nat),
{
    String::from_str("二维码解码结果报告\n").concat("生成时间: ").concat(generated).concat("\n").concat(
        "检测到的二维码数量: ",
    ).concat(decimal_text(count as u128).as_str()).concat("\n\n")
}

/// The results of the report, each in its frame; `None` exactly where the
/// moment of some result cannot be named.
pub fn verbose_entries(results: &Vec<QRCodeResult>) -> (r: Option<String>)
    ensures
        r is Some <==> spec_stamped(results@),
        r matches Some(text) ==> text@ == spec_verbose_entries(results@, results@.len()),
{
    let n: usize = results.len();
    let mut text = String::new();
    let mut i: usize = 0;
    while i < n
        invariant
            i <= n,
            n == results@.len(),
            text@ == spec_verbose_entries(results@, i as nat),
            forall|j: int| 0 <= j < i ==> spec_utc_text((#[trigger] results@[j]).timestamp) is Some,
        decreases n - i,
    {
        match utc_text(results[i].timestamp) {
            Some(stamp) => {
                let entry = verbose_entry(&results[i], stamp.as_str(), i, i + 1 == n);
                assert(stamp@ == spec_stamp(results@[i as int]));
                text.append(entry.as_str());
            },
            None => {
                assert(spec_utc_text(results@[i as int].timestamp) is None);
                return None;
            },
        }
        i += 1;
    }
    Some(text)
}

/// The confidences of the results, added up.
pub fn total_confidence(results: &Vec<QRCodeResult>) -> (total: u128)
    ensures
        total == spec_total_confidence(results@, results@.len()),
        total <= results@.len() * 0xffff_ffff,
{
    let mut total: u128 = 0;
    let mut i: usize = 0;
    while i < results.len()
        invariant
            i <= results.len(),
            total == spec_total_confidence(results@, i as nat),
            total <= i * 0xffff_ffff,
        decreases results.len() - i,
    {
        total = total + results[i].confidence as u128;
        i += 1;
    }
    total
}

/// The bytes that the contents of the results take in UTF-8.
pub fn total_bytes(results: &Vec<QRCodeResult>) -> (total: u128)
    ensures
        total == spec_total_bytes(results@, results@.len()),
{
    let mut total: u128 = 0;
    let mut i: usize = 0;
    while i < results.len()
        invariant
            i <= results.len(),
            total == spec_total_bytes(results@, i as nat),
            total <= i * 0xffff_ffff_ffff_ffff,
        decreases results.len() - i,
    {
        assert((i + 1) * 0xffff_ffff_ffff_ffff <= 0x1_0000_0000_0000_0000 * 0xffff_ffff_ffff_ffff)
            by (nonlinear_arith)
            requires
                i < 0xffff_ffff_ffff_ffff,
        ;
        total = total + results[i].content.as_str().as_bytes().len() as u128;
        i += 1;
    }
    total
}

/// The areas of the bounding boxes of the results, added up.
pub fn total_area(results: &Vec<QRCodeResult>) -> (total: i128)
    ensures
        total == spec_total_area(results@, results@.len()),
{
    let mut total: i128 = 0;
    let mut i: usize = 0;
    while i < results.len()
        invariant
            i <= results.len(),
            total == spec_total_area(results@, i as nat),
            -(i * 0x4000_0000_0000_0000) <= total <= i * 0x4000_0000_0000_0000,
        decreases results.len() - i,
    {
        assert((i + 1) * 0x4000_0000_0000_0000 <= 0x1_0000_0000_0000_0000 * 0x4000_0000_0000_0000)
            by (nonlinear_arith)
            requires
                i < 0xffff_ffff_ffff_ffff,
        ;
        let a: i64 = results[i].position.area();
        assert(-0x4000_0000_0000_0000 <= a <= 0x4000_0000_0000_0000) by (nonlinear_arith)
            requires
                a == results@[i as int].position.width * results@[i as int].position.height,
                -0x8000_0000 <= results@[i as int].position.width <= 0x7fff_ffff,
                -0x8000_0000 <= results@[i as int].position.height <= 0x7fff_ffff,
        ;
        total = total + a as i128;
        i += 1;
    }
    total
}

/// The foot of the report.
pub fn verbose_tail(results: &Vec<QRCodeResult>) -> (text: String)
    ensures
        text@ == spec_verbose_tail(results@),
{
    String::from_str("\n📊 统计信息:\n").concat("   • 总二维码数量: ").concat(
        decimal_text(results.len() as u128).as_str(),
    ).concat("\n").concat("   • 平均置信度: ").concat(
        thousandths_text(mean(total_confidence(results), results.len())).as_str(),
    ).concat("\n").concat("   • 总内容长度: ").concat(decimal_text(total_bytes(results)).as_str()).concat(
        " 字符\n",
    ).concat("   • 总覆盖面积: ").concat(signed_decimal_text(total_area(results)).as_str()).concat(
        " 平方像素\n",
    )
}

/// How the results of a run are to be put out.
pub enum Rendering {
    /// There is nothing to put out.
    Nothing,
    /// This text.
    Text(String),
    /// The one result, as a JSON object.
    JsonObject,
    /// The results, as a JSON array.
    JsonArray,
}

/// Turns results into text, as a configuration asks.
pub struct OutputFormatter {
    config: ProcessingConfig,
}

impl OutputFormatter {
    /// The configuration that the formatter follows.
    pub closed spec fn spec_config(&self) -> ProcessingConfig {
        self.config
    }

    /// A formatter that follows `config`.
    pub fn new(config: &ProcessingConfig) -> (f: Self)
        ensures
            f.spec_config() == *config,
    {
        Self { config: config.clone() }
    }

    /// The configuration that the formatter follows.
    pub fn config(&self) -> (c: &ProcessingConfig)
        ensures
            *c == self.spec_config(),
    {
        &self.config
    }

    /// A field as it stands in a line of comma-separated values.
    pub fn escape_csv_field(&self, field: &str) -> (text: String)
        ensures
            text@ == spec_escape(field@),
    {
        if holds(field, ',') || holds(field, '"') || holds(field, '\n') {
            String::from_str("\"").concat(doubled(field).as_str()).concat("\"")
        } else {
            String::from_str(field)
        }
    }

    /// One result of the plain listing.
    pub fn text_entry(&self, result: &QRCodeResult, index: usize, many: bool) -> (text: String)
        ensures
            text@ == spec_text_entry(*result, index as nat, many, self.spec_config().show_position),
    {
        let mut text = String::new();
        if many {
            text = text.concat("=== 二维码 ").concat(decimal_text(index as u128 + 1).as_str()).concat(
                " ===\n",
            );
        }
        let ghost heading = text@;
        text.append(result.content.as_str());
        if self.config.show_position {
            text.append(placement(&result.position).as_str());
        }
        let ghost body = text@;
        if many {
            text.append("\n");
        }
        proof {
            let show = self.config.show_position;
            let head = if many {
                "=== 二维码 "@ + decimal((index + 1) as nat) + " ===\n"@
            } else {
                Seq::<char>::empty()
            };
            let place = if show {
                spec_placement(result.position@)
            } else {
                Seq::<char>::empty()
            };
            let end = if many {
                "\n"@
            } else {
                Seq::<char>::empty()
            };
            assert(heading =~= head);
            assert(body =~= head + result.content@ + place);
            assert(text@ =~= head + result.content@ + place + end);
        }
        text
    }

    /// The plain listing: the content of each result, with its place where
    /// positions are shown. Where there are several, each stands under a
    /// numbered heading.
    pub fn format_as_text(&self, results: &Vec<QRCodeResult>) -> (r: Result<String, QRDecodeError>)
        ensures
            r matches Ok(text) && text@ == spec_text(
                results@,
                results@.len(),
                self.spec_config().show_position,
            ),
    {
        let many: bool = results.len() > 1;
        let mut text = String::new();
        let mut i: usize = 0;
        while i < results.len()
            invariant
                i <= results.len(),
                many == (results@.len() > 1),
                text@ == spec_text(results@, i as nat, self.spec_config().show_position),
            decreases results.len() - i,
        {
            text.append(self.text_entry(&results[i], i, many).as_str());
            i += 1;
        }
        Ok(text)
    }

    /// One line of comma-separated values for a result that was produced at
    /// the moment that `stamp` names.
    pub fn csv_row(&self, result: &QRCodeResult, stamp: &str) -> (text: String)
        ensures
            text@ == spec_csv_row(*result, stamp@, self.spec_config().show_position),
    {
        let mut text = self.escape_csv_field(result.content.as_str()).concat(",").concat(
            thousandths_text(result.confidence as u128).as_str(),
        ).concat(",").concat(result.qr_type.as_str()).concat(",\"").concat(stamp).concat("\"");
        let ghost head = text@;
        if self.config.show_position {
            text = text.concat(",").concat(signed_decimal_text(result.position.x as i128).as_str()).concat(
                ",",
            ).concat(signed_decimal_text(result.position.y as i128).as_str()).concat(",").concat(
                signed_decimal_text(result.position.width as i128).as_str(),
            ).concat(",").concat(signed_decimal_text(result.position.height as i128).as_str());
        }
        text.append("\n");
        proof {
            let place = if self.config.show_position {
                ","@ + signed_decimal(result.position.x as int) + ","@ + signed_decimal(
                    result.position.y as int,
                ) + ","@ + signed_decimal(result.position.width as int) + ","@ + signed_decimal(
                    result.position.height as int,
                )
            } else {
                Seq::<char>::empty()
            };
            assert(text@ =~= head + place + "\n"@);
        }
        text
    }

    /// The results as comma-separated values under a heading, one line
    /// each.
    ///
    /// Fails with `OutputError` exactly where the moment of some result
    /// cannot be named.
    pub fn format_as_csv(&self, results: &Vec<QRCodeResult>) -> (r: Result<String, QRDecodeError>)
        ensures
            r is Ok <==> spec_stamped(results@),
            r matches Ok(text) ==> text@ == spec_csv_header(self.spec_config().show_position)
                + spec_csv_rows(results@, results@.len(), self.spec_config().show_position),
            r matches Err(e) ==> e is OutputError && e.detail() == "时间戳超出可表示的范围"@,
    {
        let mut text = if self.config.show_position {
            String::from_str("content,confidence,type,timestamp,x,y,width,height\n")
        } else {
            String::from_str("content,confidence,type,timestamp\n")
        };
        let ghost header = text@;
        let mut i: usize = 0;
        while i < results.len()
            invariant
                i <= results.len(),
                header == spec_csv_header(self.spec_config().show_position),
                text@ == header + spec_csv_rows(results@, i as nat, self.spec_config().show_position),
                forall|j: int| 0 <= j < i ==> spec_utc_text((#[trigger] results@[j]).timestamp) is Some,
            decreases results.len() - i,
        {
            match utc_text(results[i].timestamp) {
                Some(stamp) => {
                    let ghost before = text@;
                    let row = self.csv_row(&results[i], stamp.as_str());
                    text.append(row.as_str());
                    assert(text@ =~= header + (spec_csv_rows(
                        results@,
                        i as nat,
                        self.spec_config().show_position,
                    ) + row@));
                },
                None => {
                    assert(spec_utc_text(results@[i as int].timestamp) is None);
                    return Err(QRDecodeError::output_error(String::from_str("时间戳超出可表示的范围")));
                },
            }
            i += 1;
        }
        Ok(text)
    }

    /// The lines that sum a run up.
    pub fn output_summary(&self, results: &Vec<QRCodeResult>) -> (lines: Vec<String>)
        ensures
            spec_lines_of(lines@) == spec_summary(results@, self.spec_config().verbose),
    {
        let mut lines: Vec<String> = Vec::new();
        if results.len() == 0 {
            lines.push(String::from_str("❌ 未检测到二维码"));
            assert(spec_lines_of(lines@) =~= spec_summary(results@, self.spec_config().verbose));
            return lines;
        }
        lines.push(
            String::from_str("✅ 成功检测到 ").concat(decimal_text(results.len() as u128).as_str()).concat(
                " 个二维码",
            ),
        );
        if self.config.verbose {
            lines.push(
                String::from_str("   平均置信度: ").concat(
                    thousandths_text(mean(total_confidence(results), results.len())).as_str(),
                ),
            );
            lines.push(
                String::from_str("   总内容长度: ").concat(decimal_text(total_bytes(results)).as_str()).concat(
                    " 字符",
                ),
            );
        }
        assert(spec_lines_of(lines@) =~= spec_summary(results@, self.spec_config().verbose));
        lines
    }

    /// The line that reports an error.
    pub fn output_error(&self, error: &QRDecodeError) -> (line: String)
        ensures
            line@ == "❌ 错误: "@ + (error.heading() + error.detail()),
    {
        String::from_str("❌ 错误: ").concat(error.to_string().as_str())
    }

    /// The line that narrates a step of a verbose run; a run that is not
    /// verbose narrates nothing.
    pub fn output_progress(&self, message: &str) -> (line: Option<String>)
        ensures
            line is Some <==> self.spec_config().verbose,
            line matches Some(l) ==> l@ == "🔄 "@ + message@,
    {
        if self.config.verbose {
            Some(String::from_str("🔄 ").concat(message))
        } else {
            None
        }
    }

    /// The report on `results`, made `generated` milliseconds after the
    /// start of 1970.
    ///
    /// Fails with `OutputError` exactly where that moment or the moment of
    /// some result cannot be named.
    pub fn verbose_report(&self, results: &Vec<QRCodeResult>, generated: i64) -> (r: Result<
        String,
        QRDecodeError,
    >)
        ensures
            spec_verbose_outcome(results@, generated, r),
    {
        match utc_text(generated) {
            Some(made) => match verbose_entries(results) {
                Some(entries) => Ok(
                    verbose_head(made.as_str(), results.len()).concat(entries.as_str()).concat(
                        verbose_tail(results).as_str(),
                    ),
                ),
                None => Err(QRDecodeError::output_error(String::from_str("时间戳超出可表示的范围"))),
            },
            None => Err(QRDecodeError::output_error(String::from_str("时间戳超出可表示的范围"))),
        }
    }

    /// The report on `results`, made now.
    ///
    /// It is the report of `verbose_report` for the moment at which the
    /// clock is read.
    pub fn format_as_verbose(&self, results: &Vec<QRCodeResult>) -> (r: Result<String, QRDecodeError>)
        ensures
            exists|generated: i64| spec_verbose_outcome(results@, generated, r),
    {
        let generated: i64 = now_millis();
        self.verbose_report(results, generated)
    }

    /// Whether `r` is how `results` are put out under `config` in a run
    /// that reads the clock at `generated`.
    ///
    /// Nothing is put out where there are no results. JSON is left to the
    /// caller: one result is an object, several are an array.
    pub open spec fn spec_output(
        config: ProcessingConfig,
        results: Seq<QRCodeResult>,
        generated: i64,
        r: Result<Rendering, QRDecodeError>,
    ) -> bool {
        if results.len() == 0 {
            r matches Ok(Rendering::Nothing)
        } else {
            match config.output_format {
                OutputFormat::Text => r matches Ok(Rendering::Text(t)) && t@ == spec_text(
                    results,
                    results.len(),
                    config.show_position,
                ),
                OutputFormat::Json => if results.len() == 1 {
                    r matches Ok(Rendering::JsonObject)
                } else {
                    r matches Ok(Rendering::JsonArray)
                },
                OutputFormat::Csv => {
                    &&& r is Ok <==> spec_stamped(results)
                    &&& r matches Ok(rendering) ==> (rendering matches Rendering::Text(t) && t@
                        == spec_csv_header(config.show_position) + spec_csv_rows(
                        results,
                        results.len(),
                        config.show_position,
                    ))
                    &&& r matches Err(e) ==> e is OutputError && e.detail()
                        == "时间戳超出可表示的范围"@
                },
                OutputFormat::Verbose => {
                    &&& r is Ok <==> spec_utc_text(generated) is Some && spec_stamped(results)
                    &&& r matches Ok(rendering) ==> (rendering matches Rendering::Text(t) && t@
                        == spec_verbose(results, spec_utc_text(generated).unwrap()))
                    &&& r matches Err(e) ==> e is OutputError && e.detail()
                        == "时间戳超出可表示的范围"@
                },
            }
        }
    }

    /// How `results` are put out in a run that reads the clock at
    /// `generated`.
    pub fn render(&self, results: &Vec<QRCodeResult>, generated: i64) -> (r: Result<
        Rendering,
        QRDecodeError,
    >)
        ensures
            Self::spec_output(self.spec_config(), results@, generated, r),
    {
        if results.len() == 0 {
            return Ok(Rendering::Nothing);
        }
        match self.config.output_format {
            OutputFormat::Text => match self.format_as_text(results) {
                Ok(text) => Ok(Rendering::Text(text)),
                Err(e) => Err(e),
            },
            OutputFormat::Json => if results.len() == 1 {
                Ok(Rendering::JsonObject)
            } else {
                Ok(Rendering::JsonArray)
            },
            OutputFormat::Csv => match self.format_as_csv(results) {
                Ok(text) => Ok(Rendering::Text(text)),
                Err(e) => Err(e),
            },
            OutputFormat::Verbose => match self.verbose_report(results, generated) {
                Ok(text) => Ok(Rendering::Text(text)),
                Err(e) => Err(e),
            },
        }
    }

    /// How `results` are put out now: as `render` puts them out for the
    /// moment at which the clock is read.
    pub fn output_results(&self, results: &Vec<QRCodeResult>) -> (r: Result<Rendering, QRDecodeError>)
        ensures
            exists|generated: i64| Self::spec_output(self.spec_config(), results@, generated, r),
    {
        let generated: i64 = now_millis();
        self.render(results, generated)
    }
}

/// What was put out, in numbers.
#[derive(Debug)]
pub struct OutputStats {
    /// The number of results.
    pub qr_codes_output: usize,
    /// The bytes that their contents take in UTF-8.
    pub total_characters: usize,
    /// The bytes that were written.
    pub output_size_bytes: usize,
    /// The format in which they were written.
    pub format_used: OutputFormat,
    /// When they were written: milliseconds since 1970-01-01 UTC.
    pub output_time: i64,
}

impl OutputStats {
    /// The largest count that the numbers can hold.
    pub open spec fn spec_capped(total: nat) -> nat {
        if total > usize::MAX {
            usize::MAX as nat
        } else {
            total
        }
    }

    /// The numbers for `results` written as `output_size` bytes in
    /// `format`, stamped with the present moment. A total beyond the
    /// largest count stays at the largest count.
    pub fn new(results: &Vec<QRCodeResult>, format: OutputFormat, output_size: usize) -> (s: Self)
        ensures
            s.qr_codes_output == results@.len(),
            s.total_characters == Self::spec_capped(spec_total_bytes(results@, results@.len())),
            s.output_size_bytes == output_size,
            s.format_used == format,
    {
        let mut total: usize = 0;
        let mut i: usize = 0;
        while i < results.len()
            invariant
                i <= results.len(),
                total == Self::spec_capped(spec_total_bytes(results@, i as nat)),
            decreases results.len() - i,
        {
            let size: usize = results[i].content.as_str().as_bytes().len();
            total = if size > usize::MAX - total {
                usize::MAX
            } else {
                total + size
            };
            i += 1;
        }
        Self {
            qr_codes_output: results.len(),
            total_characters: total,
            output_size_bytes: output_size,
            format_used: format,
            output_time: now_millis(),
        }
    }

    /// The bytes written for each byte of content, in thousandths, rounded
    /// to the nearest; zero where there is no content.
    pub fn compression_ratio(&self) -> (ratio: u128)
        ensures
            ratio == rounded_ratio(self.output_size_bytes as nat, self.total_characters as nat, 1000),
    {
        rounded_ratio_of(self.output_size_bytes as u64, self.total_characters as u64, 1000)
    }
}

} // verus!
