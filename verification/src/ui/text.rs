use vstd::prelude::*;

use crate::domain::Article;
use crate::ui::app::App;

verus! {

/// The character of the decimal digit `d`.
pub open spec fn digit_char(d: nat) -> char {
    (48 + d) as char
}

/// The decimal notation of `n`, without leading zeros.
pub open spec fn decimal(n: nat) -> Seq<char>
    decreases n,
{
    if n < 10 {
        seq![digit_char(n)]
    } else {
        decimal(n / 10).push(digit_char(n % 10))
    }
}

/// The header line of the article list: the number of articles and the
/// status line.
pub open spec fn header_text(count: nat, status: Seq<char>) -> Seq<char> {
    " News Reader │ "@ + decimal(count) + " articles │ "@ + status + " "@
}

/// The row of the article list that shows an article titled `title`.
pub open spec fn row_text(title: Seq<char>) -> Seq<char> {
    " "@ + title
}

fn digit_str(d: usize) -> (s: &'static str)
    requires
        d < 10,
    ensures
        s@ == seq![digit_char(d as nat)],
{
    proof {
        reveal_strlit("0");
        reveal_strlit("1");
        reveal_strlit("2");
        reveal_strlit("3");
        reveal_strlit("4");
        reveal_strlit("5");
        reveal_strlit("6");
        reveal_strlit("7");
        reveal_strlit("8");
        reveal_strlit("9");
    }
    if d == 0 {
        "0"
    } else if d == 1 {
        "1"
    } else if d == 2 {
        "2"
    } else if d == 3 {
        "3"
    } else if d == 4 {
        "4"
    } else if d == 5 {
        "5"
    } else if d == 6 {
        "6"
    } else if d == 7 {
        "7"
    } else if d == 8 {
        "8"
    } else {
        "9"
    }
}

/// `n` written in decimal.
pub fn decimal_string(n: usize) -> (s: String)
    ensures
        s@ == decimal(n as nat),
    decreases n,
{
    if n < 10 {
        String::from_str(digit_str(n))
    } else {
        decimal_string(n / 10).concat(digit_str(n % 10))
    }
}

/// The header line that the article list shows above its rows.
pub fn header_line(app: &App) -> (line: String)
    ensures
        line@ == header_text(app.articles@.len(), app.status@),
{
    let line = String::from_str(" News Reader │ ");
    let line = line.concat(decimal_string(app.articles.len()).as_str());
    let line = line.concat(" articles │ ");
    let line = line.concat(app.status.as_str());
    line.concat(" ")
}

/// The row that the article list shows for `article`.
pub fn article_row(article: &Article) -> (row: String)
    ensures
        row@ == row_text(article.title@),
{
    String::from_str(" ").concat(article.title.as_str())
}

} // verus!
