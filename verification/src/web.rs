//! What the dashboard shows of a monitor: its status, last check, uptime
//! counts, average response time and a text chart of its recent checks.
use vstd::prelude::*;

use crate::models::time::{date_time_pattern, time_of_day_pattern, utc_formatted};
use crate::models::{History, HistoryStatus, Monitor, TimeLayout};
use crate::text::{
    decimal, join, join_strings, owned, push_repeated, repeated, u64_to_decimal, views,
    i64_to_decimal,
};

verus! {

/// Rows of bars in the response-time chart.
pub open spec fn chart_rows() -> int {
    6
}

/// Whether a check found its endpoint down.
pub open spec fn is_down(entry: History) -> bool {
    entry.status == HistoryStatus::Down
}

/// One cell of a bar row: filled when the column's bar reaches `threshold`,
/// in red with `!` for a failed check.
pub open spec fn bar_cell(height: usize, down: bool, threshold: int) -> Seq<char> {
    if height >= threshold {
        if down {
            "<span style=\"color:#ef4444\">!</span>"@
        } else {
            "\u{2588}"@
        }
    } else {
        " "@
    }
}

/// Bar row `row` of the chart (row 0 is the top), one cell per check, cells
/// separated by spaces.
pub open spec fn bar_row(history: Seq<History>, heights: Seq<usize>, row: int) -> Seq<char> {
    join(
        Seq::new(history.len(), |i: int| bar_cell(heights[i], is_down(history[i]), chart_rows() - row)),
        " "@,
    )
}

/// One cell of the chart's axis: a red tick under a failed check.
pub open spec fn axis_cell(down: bool) -> Seq<char> {
    if down {
        "<span style=\"color:#ef4444\">\u{2534}</span>"@
    } else {
        "\u{2500}"@
    }
}

/// The axis line under the bars.
pub open spec fn axis_row(history: Seq<History>) -> Seq<char> {
    join(Seq::new(history.len(), |i: int| axis_cell(is_down(history[i]))), "\u{2500}"@)
}

/// The width of the chart in characters: a column per check and a gap between neighbours.
pub open spec fn chart_width(n: int) -> int {
    2 * n - 1
}

/// The length of a text in UTF-8 bytes, as `str::len` reports it.
pub open spec fn byte_len(s: Seq<char>) -> int {
    (vstd::utf8::encode_utf8(s).len() as usize) as int
}

/// The time of day at which a check ran.
pub open spec fn time_label(entry: History) -> Seq<char> {
    utc_formatted(entry.checked_at@.0, entry.checked_at@.1, time_of_day_pattern())
}

/// The spaces between the first and the last time label: what is left of the
/// chart width after both labels' bytes, and at least one.
pub open spec fn label_padding(width: int, first: Seq<char>, last: Seq<char>) -> int {
    let left = width - (byte_len(first) + byte_len(last));
    if left > 1 {
        left
    } else {
        1
    }
}

/// The line under the axis: the time of the first check at the left, of the
/// last check at the right.
pub open spec fn time_row(history: Seq<History>) -> Seq<char> {
    let first = time_label(history[0]);
    let last = time_label(history.last());
    "<span style=\"color:#22c55e55\">"@ + first + repeated(
        ' ',
        label_padding(chart_width(history.len() as int), first, last) as nat,
    ) + last + "</span>"@
}

/// The lines of the chart: the bar rows from the top, the axis and the time labels.
pub open spec fn chart_lines(history: Seq<History>, heights: Seq<usize>) -> Seq<Seq<char>> {
    Seq::new(chart_rows() as nat, |r: int| bar_row(history, heights, r)).push(
        axis_row(history),
    ).push(time_row(history))
}

/// The chart of the checks as preformatted HTML, empty when there are no checks.
pub open spec fn sparkline_text(history: Seq<History>, heights: Seq<usize>) -> Seq<char> {
    if history.len() == 0 {
        Seq::empty()
    } else {
        "<pre class=\"ascii-chart\" style=\"--chart-char-count:"@ + decimal(
            chart_width(history.len() as int),
        ) + "\">"@ + join(chart_lines(history, heights), "\n"@) + "</pre>"@
    }
}

fn entry_is_down(entry: &History) -> (r: bool)
    ensures
        r == is_down(*entry),
{
    match entry.status {
        HistoryStatus::Down => true,
        HistoryStatus::Up => false,
    }
}

fn bar_cell_text(height: usize, down: bool, threshold: usize) -> (r: String)
    ensures
        r@ == bar_cell(height, down, threshold as int),
{
    if height >= threshold {
        if down {
            owned("<span style=\"color:#ef4444\">!</span>")
        } else {
            owned("\u{2588}")
        }
    } else {
        owned(" ")
    }
}

fn bar_row_text(history: &Vec<History>, heights: &Vec<usize>, row: usize) -> (r: String)
    requires
        heights.len() == history.len(),
        row < chart_rows(),
    ensures
        r@ == bar_row(history@, heights@, row as int),
{
    let threshold: usize = 6 - row;
    let mut cells: Vec<String> = Vec::new();
    let mut i: usize = 0;
    while i < history.len()
        invariant
            i <= history.len(),
            heights.len() == history.len(),
            threshold == chart_rows() - row,
            cells.len() == i,
            forall|j: int|
                0 <= j < i ==> (#[trigger] cells@[j])@ == bar_cell(
                    heights@[j],
                    is_down(history@[j]),
                    chart_rows() - row,
                ),
        decreases history.len() - i,
    {
        let down = entry_is_down(&history[i]);
        cells.push(bar_cell_text(heights[i], down, threshold));
        i = i + 1;
    }
    assert(views(cells@) =~= Seq::new(
        history@.len(),
        |j: int| bar_cell(heights@[j], is_down(history@[j]), chart_rows() - row),
    ));
    join_strings(&cells, " ")
}

fn axis_cell_text(down: bool) -> (r: String)
    ensures
        r@ == axis_cell(down),
{
    if down {
        owned("<span style=\"color:#ef4444\">\u{2534}</span>")
    } else {
        owned("\u{2500}")
    }
}

fn axis_row_text(history: &Vec<History>) -> (r: String)
    ensures
        r@ == axis_row(history@),
{
    let mut cells: Vec<String> = Vec::new();
    let mut i: usize = 0;
    while i < history.len()
        invariant
            i <= history.len(),
            cells.len() == i,
            forall|j: int| 0 <= j < i ==> (#[trigger] cells@[j])@ == axis_cell(is_down(history@[j])),
        decreases history.len() - i,
    {
        let down = entry_is_down(&history[i]);
        cells.push(axis_cell_text(down));
        i = i + 1;
    }
    assert(views(cells@) =~= Seq::new(history@.len(), |j: int| axis_cell(is_down(history@[j]))));
    join_strings(&cells, "\u{2500}")
}

fn time_row_text(history: &Vec<History>, width: usize) -> (r: String)
    requires
        history.len() > 0,
        width == chart_width(history.len() as int),
    ensures
        r@ == time_row(history@),
{
    let first = history[0].checked_at.format(TimeLayout::TimeOfDay);
    let last = history[history.len() - 1].checked_at.format(TimeLayout::TimeOfDay);
    let first_len = first.as_str().len();
    let last_len = last.as_str().len();
    let padding: usize = if first_len >= width || last_len >= width - first_len {
        1
    } else if width - first_len - last_len > 1 {
        width - first_len - last_len
    } else {
        1
    };
    let mut out = owned("<span style=\"color:#22c55e55\">");
    out.append(first.as_str());
    push_repeated(&mut out, ' ', padding);
    out.append(last.as_str());
    out.append("</span>");
    proof {
        let h = history@;
        assert(first@ == time_label(h[0]));
        assert(last@ == time_label(h.last()));
        assert(padding as int == label_padding(width as int, first@, last@));
        assert(out@ =~= "<span style=\"color:#22c55e55\">"@ + first@ + repeated(' ', padding as nat) + last@ + "</span>"@);
    }
    out
}

/// An ASCII bar chart of the recent checks, one column per check, oldest at the
/// left. `heights` gives each column's bar height in rows (1 to 6), scaled from
/// the check's response time. The `<pre>` carries the chart width so the
/// stylesheet can scale the font to fill the card.
pub fn build_sparkline(history: &Vec<History>, heights: &Vec<usize>) -> (r: String)
    requires
        heights.len() == history.len(),
        chart_width(history.len() as int) <= usize::MAX,
    ensures
        r@ == sparkline_text(history@, heights@),
{
    if history.len() == 0 {
        return String::new();
    }
    let width: usize = (history.len() - 1) + history.len();
    let mut lines: Vec<String> = Vec::new();
    let mut row: usize = 0;
    while row < 6
        invariant
            row <= 6,
            heights.len() == history.len(),
            lines.len() == row,
            forall|j: int| 0 <= j < row ==> (#[trigger] lines@[j])@ == bar_row(history@, heights@, j),
        decreases 6 - row,
    {
        lines.push(bar_row_text(history, heights, row));
        row = row + 1;
    }
    lines.push(axis_row_text(history));
    lines.push(time_row_text(history, width));
    assert(views(lines@) =~= chart_lines(history@, heights@));
    let body = join_strings(&lines, "\n");
    let mut out = owned("<pre class=\"ascii-chart\" style=\"--chart-char-count:");
    out.append(u64_to_decimal(width as u64).as_str());
    out.append("\">");
    out.append(body.as_str());
    out.append("</pre>");
    out
}

} // verus!

verus! {

/// The number of checks that found the endpoint up.
pub open spec fn up_count(history: Seq<History>) -> nat
    decreases history.len(),
{
    if history.len() == 0 {
        0
    } else {
        up_count(history.drop_last()) + if history.last().status == HistoryStatus::Up {
            1nat
        } else {
            0nat
        }
    }
}

/// The response times that the checks recorded, in order.
pub open spec fn response_times(history: Seq<History>) -> Seq<i64>
    decreases history.len(),
{
    if history.len() == 0 {
        Seq::empty()
    } else {
        response_times(history.drop_last()) + match history.last().response_time_ms {
            Some(ms) => seq![ms],
            None => Seq::empty(),
        }
    }
}

/// The sum of a sequence of integers.
pub open spec fn sum_of(values: Seq<i64>) -> int
    decreases values.len(),
{
    if values.len() == 0 {
        0
    } else {
        sum_of(values.drop_last()) + values.last()
    }
}

/// Every running total of the sequence fits in an `i64`, so adding it up in
/// order does not overflow.
pub open spec fn sums_fit(values: Seq<i64>) -> bool {
    forall|k: int| 0 <= k <= values.len() ==> i64::MIN <= #[trigger] sum_of(values.take(k)) <= i64::MAX
}

/// Integer division rounding towards zero, as Rust's `/` on integers does.
pub open spec fn div_toward_zero(a: int, b: int) -> int {
    if a >= 0 {
        a / b
    } else {
        -((-a) / b)
    }
}

/// The average response time as shown: `N/A` without response times, else the
/// sum divided by their number, rounded towards zero, in milliseconds.
pub open spec fn average_text(history: Seq<History>) -> Seq<char> {
    let times = response_times(history);
    if times.len() == 0 {
        "N/A"@
    } else {
        decimal(div_toward_zero(sum_of(times), times.len() as int)) + "ms"@
    }
}

/// When the monitor was last checked, or `Never`.
pub open spec fn last_check_text(last_check_at: Option<crate::models::Timestamp>) -> Seq<char> {
    match last_check_at {
        Some(ts) => utc_formatted(ts@.0, ts@.1, date_time_pattern()),
        None => "Never"@,
    }
}

proof fn lemma_response_times_prefix(history: Seq<History>, i: int)
    requires
        0 <= i <= history.len(),
    ensures
        response_times(history.take(i)).len() <= response_times(history).len(),
        response_times(history).take(response_times(history.take(i)).len() as int) == response_times(
            history.take(i),
        ),
    decreases history.len(),
{
    if i == history.len() {
        assert(history.take(i) =~= history);
        assert(response_times(history).take(response_times(history).len() as int) =~= response_times(
            history,
        ));
    } else {
        let shorter = history.drop_last();
        assert(history.take(i) =~= shorter.take(i));
        lemma_response_times_prefix(shorter, i);
        let k = response_times(history.take(i)).len() as int;
        assert(response_times(history).take(k) =~= response_times(shorter).take(k));
    }
}

proof fn lemma_response_times_step(history: Seq<History>, i: int)
    requires
        0 <= i < history.len(),
    ensures
        response_times(history.take(i + 1)) == response_times(history.take(i)) + match history[i].response_time_ms {
            Some(ms) => seq![ms],
            None => Seq::<i64>::empty(),
        },
{
    assert(history.take(i + 1).drop_last() =~= history.take(i));
}

proof fn lemma_up_count_step(history: Seq<History>, i: int)
    requires
        0 <= i < history.len(),
    ensures
        up_count(history.take(i + 1)) == up_count(history.take(i)) + if history[i].status == HistoryStatus::Up {
            1nat
        } else {
            0nat
        },
{
    assert(history.take(i + 1).drop_last() =~= history.take(i));
}

fn count_up(history: &Vec<History>) -> (r: usize)
    ensures
        r == up_count(history@),
{
    let mut count: usize = 0;
    let mut i: usize = 0;
    while i < history.len()
        invariant
            i <= history.len(),
            count == up_count(history@.take(i as int)),
            count <= i,
        decreases history.len() - i,
    {
        proof {
            lemma_up_count_step(history@, i as int);
        }
        if !entry_is_down(&history[i]) {
            count = count + 1;
        }
        i = i + 1;
    }
    assert(history@.take(history.len() as int) =~= history@);
    count
}

fn average_response_text(history: &Vec<History>) -> (r: String)
    requires
        sums_fit(response_times(history@)),
    ensures
        r@ == average_text(history@),
{
    let ghost times = response_times(history@);
    let mut total: i64 = 0;
    let mut count: usize = 0;
    let mut i: usize = 0;
    while i < history.len()
        invariant
            i <= history.len(),
            times == response_times(history@),
            sums_fit(times),
            total == sum_of(response_times(history@.take(i as int))),
            count == response_times(history@.take(i as int)).len(),
            count <= i,
        decreases history.len() - i,
    {
        proof {
            lemma_response_times_step(history@, i as int);
        }
        match history[i].response_time_ms {
            Some(ms) => {
                proof {
                    let next = response_times(history@.take(i + 1));
                    lemma_response_times_prefix(history@, i + 1);
                    assert(next.drop_last() =~= response_times(history@.take(i as int)));
                    assert(sum_of(next) == total + ms);
                    assert(times.take(next.len() as int) == next);
                }
                total = total + ms;
                count = count + 1;
            },
            None => {
                proof {
                    assert(response_times(history@.take(i + 1)) =~= response_times(history@.take(i as int)));
                }
            },
        }
        i = i + 1;
    }
    assert(history@.take(history.len() as int) =~= history@);
    if count == 0 {
        owned("N/A")
    } else {
        let average = (total as i128) / (count as i128);
        let mut out = i64_to_decimal(average as i64);
        out.append("ms");
        out
    }
}

/// A monitor as the dashboard shows it.
#[derive(Clone, Debug, PartialEq, Eq)]
pub struct MonitorView {
    pub id: i64,
    pub name: String,
    pub url: String,
    pub check_interval_secs: i64,
    pub timeout_secs: i64,
    pub status: &'static str,
    pub last_check: String,
    pub up_checks: usize,
    pub total_checks: usize,
    pub avg_response_ms: String,
    pub sparkline: String,
}

impl MonitorView {
    /// The view of a monitor and its recent checks, oldest first. `heights` gives
    /// each check's bar height in the chart.
    pub fn new(monitor: Monitor, history: &Vec<History>, heights: &Vec<usize>) -> (r: MonitorView)
        requires
            heights.len() == history.len(),
            chart_width(history.len() as int) <= usize::MAX,
            sums_fit(response_times(history@)),
        ensures
            r.id == monitor.id,
            r.name == monitor.name,
            r.url == monitor.url,
            r.check_interval_secs == monitor.check_interval_secs,
            r.timeout_secs == monitor.timeout_secs,
            r.status@ == monitor.status.name(),
            r.last_check@ == last_check_text(monitor.last_check_at),
            r.up_checks == up_count(history@),
            r.total_checks == history.len(),
            r.avg_response_ms@ == average_text(history@),
            r.sparkline@ == sparkline_text(history@, heights@),
    {
        let last_check = match &monitor.last_check_at {
            Some(ts) => ts.format(TimeLayout::DateTime),
            None => owned("Never"),
        };
        MonitorView {
            id: monitor.id,
            name: monitor.name,
            url: monitor.url,
            check_interval_secs: monitor.check_interval_secs,
            timeout_secs: monitor.timeout_secs,
            status: monitor.status.as_str(),
            last_check,
            up_checks: count_up(history),
            total_checks: history.len(),
            avg_response_ms: average_response_text(history),
            sparkline: build_sparkline(history, heights),
        }
    }
}

/// The checks newest first, as the history list shows them.
pub fn newest_first(entries: Vec<History>) -> (r: Vec<History>)
    ensures
        r@ == entries@.reverse(),
{
    let mut rest = entries;
    let mut out: Vec<History> = Vec::new();
    while rest.len() > 0
        invariant
            out@ + rest@.reverse() == entries@.reverse(),
        decreases rest.len(),
    {
        let ghost before = rest@;
        let last = rest.pop().unwrap();
        proof {
            assert(before.reverse() =~= seq![last] + rest@.reverse());
        }
        out.push(last);
        assert(out@ + rest@.reverse() =~= entries@.reverse());
    }
    assert(rest@.reverse() =~= Seq::<History>::empty());
    assert(out@ =~= entries@.reverse());
    out
}

/// A check is up or down, so the up checks never outnumber the checks.
pub proof fn law_up_checks_at_most_checks(history: Seq<History>)
    ensures
        up_count(history) <= history.len(),
    decreases history.len(),
{
    if history.len() > 0 {
        law_up_checks_at_most_checks(history.drop_last());
    }
}

/// A column's bar fills exactly the bottom `height` rows of the chart, whether
/// its check passed or failed: the cell in row `row` (0 is the top) is blank
/// exactly when the bar does not reach it, a filled cell of a failed check is
/// the red `!`, and a filled cell of a passed check is a full block.
pub proof fn law_bars_fill_up_to_their_height(height: usize, down: bool, row: int)
    requires
        0 <= row < chart_rows(),
    ensures
        bar_cell(height, down, chart_rows() - row) == " "@ <==> height < chart_rows() - row,
        height >= chart_rows() - row && down ==> bar_cell(height, down, chart_rows() - row)
            == "<span style=\"color:#ef4444\">!</span>"@,
        height >= chart_rows() - row && !down ==> bar_cell(height, down, chart_rows() - row)
            == "\u{2588}"@,
{
    reveal_strlit(" ");
    reveal_strlit("\u{2588}");
    reveal_strlit("<span style=\"color:#ef4444\">!</span>");
    assert(" "@ != "\u{2588}"@) by {
        assert(" "@[0] != "\u{2588}"@[0]);
    }
    assert(" "@ != "<span style=\"color:#ef4444\">!</span>"@) by {
        assert(" "@.len() != "<span style=\"color:#ef4444\">!</span>"@.len());
    }
}

/// Where no check failed, every bar row and the axis are exactly as many
/// characters wide as the chart width the `<pre>` declares, so scaling the font
/// to that width fills the card.
pub proof fn law_rows_match_declared_width(history: Seq<History>, heights: Seq<usize>, row: int)
    requires
        history.len() > 0,
        heights.len() == history.len(),
        0 <= row < chart_rows(),
        forall|i: int| 0 <= i < history.len() ==> !is_down(#[trigger] history[i]),
    ensures
        bar_row(history, heights, row).len() == chart_width(history.len() as int),
        axis_row(history).len() == chart_width(history.len() as int),
{
    reveal_strlit("\u{2588}");
    reveal_strlit(" ");
    reveal_strlit("\u{2500}");
    let bars = Seq::new(
        history.len(),
        |i: int| bar_cell(heights[i], is_down(history[i]), chart_rows() - row),
    );
    assert forall|i: int| 0 <= i < bars.len() implies (#[trigger] bars[i]).len() == 1 by {
        assert(!is_down(history[i]));
    }
    crate::text::lemma_join_single_chars(bars, " "@);
    let ticks = Seq::new(history.len(), |i: int| axis_cell(is_down(history[i])));
    assert forall|i: int| 0 <= i < ticks.len() implies (#[trigger] ticks[i]).len() == 1 by {
        assert(!is_down(history[i]));
    }
    crate::text::lemma_join_single_chars(ticks, "\u{2500}"@);
}

/// Every check of a history of passed checks counts as up, and none of a
/// history of failed checks does.
pub proof fn law_up_count_counts_passed_checks(history: Seq<History>)
    ensures
        (forall|i: int| 0 <= i < history.len() ==> (#[trigger] history[i]).status == HistoryStatus::Up)
            ==> up_count(history) == history.len(),
        (forall|i: int| 0 <= i < history.len() ==> (#[trigger] history[i]).status == HistoryStatus::Down)
            ==> up_count(history) == 0,
    decreases history.len(),
{
    if history.len() > 0 {
        law_up_count_counts_passed_checks(history.drop_last());
        assert forall|i: int| 0 <= i < history.drop_last().len() implies #[trigger] history.drop_last()[i]
            == history[i] by {}
    }
}

/// The average shown is the sum of the response times divided by their number,
/// rounded towards zero: it never overshoots the true mean and misses it by
/// less than one millisecond.
pub proof fn law_average_rounds_towards_zero(history: Seq<History>)
    requires
        response_times(history).len() > 0,
    ensures
        exists|q: int|
            {
                let s = sum_of(response_times(history));
                let n = response_times(history).len() as int;
                &&& average_text(history) == #[trigger] decimal(q) + "ms"@
                &&& s >= 0 ==> 0 <= s - q * n < n
                &&& s < 0 ==> 0 <= q * n - s < n
            },
{
    let s = sum_of(response_times(history));
    let n = response_times(history).len() as int;
    let q = div_toward_zero(s, n);
    assert(s >= 0 ==> 0 <= s - q * n < n) by (nonlinear_arith)
        requires
            n > 0,
            q == (if s >= 0 { s / n } else { -((-s) / n) }),
    {}
    assert(s < 0 ==> 0 <= q * n - s < n) by (nonlinear_arith)
        requires
            n > 0,
            q == (if s >= 0 { s / n } else { -((-s) / n) }),
    {}
    assert(average_text(history) == decimal(q) + "ms"@);
}

/// The chart has a line per bar row, one for the axis and one for the time labels.
pub proof fn law_chart_line_count(history: Seq<History>, heights: Seq<usize>)
    ensures
        chart_lines(history, heights).len() == chart_rows() + 2,
{
}

} // verus!
