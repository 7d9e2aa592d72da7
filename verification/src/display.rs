//! What the client prints: question lists, a question with its answers, and
//! the confirmations of the commands.
use vstd::prelude::*;
use crate::text::{int_decimal, nat_decimal, owned, push_decimal, push_int};
use crate::time_ago::{format_time_ago, possible_age};

verus! {

/// A question as the list endpoints return it.
#[derive(Debug, Clone, PartialEq, Eq)]
pub struct QuestionSummary {
    pub id: i64,
    pub title: String,
    pub author: String,
    pub created_at: String,
    pub stars: i64,
    pub views: i64,
}

/// A question as the single-question endpoint returns it.
#[derive(Debug, Clone, PartialEq, Eq)]
pub struct Question {
    pub id: i64,
    pub user_id: i64,
    pub author: String,
    pub title: String,
    pub content: String,
    pub created_at: String,
    pub solved: bool,
    pub solved_at: Option<String>,
    pub starred: bool,
    pub views: i64,
    pub stars: i64,
}

/// An answer to a question.
#[derive(Debug, Clone, PartialEq, Eq)]
pub struct Answer {
    pub id: i64,
    pub question_id: i64,
    pub user_id: i64,
    pub author: String,
    pub content: String,
    pub created_at: String,
}

/// A question together with its answers, oldest first.
#[derive(Debug, Clone, PartialEq, Eq)]
pub struct QuestionWithAnswers {
    pub question: Question,
    pub answers: Vec<Answer>,
}

/// `, stars:N` for a starred question, nothing otherwise.
pub open spec fn stars_suffix(stars: i64) -> Seq<char> {
    if stars > 0 {
        ", stars:"@ + int_decimal(stars as int)
    } else {
        Seq::empty()
    }
}

/// The tail shared by list lines and question headers:
/// `<title> at <age> by <author> [views:<views><stars>]`.
pub open spec fn entry_tail(title: Seq<char>, age: Seq<char>, author: Seq<char>, views: i64, stars: i64) -> Seq<
    char,
> {
    title + " at "@ + age + " by "@ + author + " [views:"@ + int_decimal(views as int) + stars_suffix(
        stars,
    ) + "]"@
}

/// A question's line in a list: `[question: <id>] <title> at <age> by <author> [views:<n>, stars:<n>]`.
pub open spec fn summary_text(q: QuestionSummary, age: Seq<char>) -> Seq<char> {
    "[question: "@ + int_decimal(q.id as int) + "] "@ + entry_tail(
        q.title@,
        age,
        q.author@,
        q.views,
        q.stars,
    )
}

/// `[SOLVED]` or `[OPEN]`.
pub open spec fn status_tag(solved: bool) -> Seq<char> {
    if solved {
        "[SOLVED]"@
    } else {
        "[OPEN]"@
    }
}

/// The first line shown for a question: its status tag, then as in a list.
pub open spec fn header_text(q: Question, age: Seq<char>) -> Seq<char> {
    status_tag(q.solved) + " [question: "@ + int_decimal(q.id as int) + "] "@ + entry_tail(
        q.title@,
        age,
        q.author@,
        q.views,
        q.stars,
    )
}

/// The line introducing an answer: `[answer: <id>] at <age> by <author>`.
pub open spec fn answer_header_text(a: Answer, age: Seq<char>) -> Seq<char> {
    "[answer: "@ + int_decimal(a.id as int) + "] at "@ + age + " by "@ + a.author@
}

fn append_tail(r: &mut String, title: &str, age: &str, author: &str, views: i64, stars: i64)
    ensures
        final(r)@ == old(r)@ + entry_tail(title@, age@, author@, views, stars),
{
    r.append(title);
    r.append(" at ");
    r.append(age);
    r.append(" by ");
    r.append(author);
    r.append(" [views:");
    push_int(r, views);
    let ghost before_stars = r@;
    if stars > 0 {
        r.append(", stars:");
        push_int(r, stars);
    }
    assert(r@ =~= before_stars + stars_suffix(stars));
    r.append("]");
    assert(r@ =~= old(r)@ + entry_tail(title@, age@, author@, views, stars));
}

/// A question's line in a list, given its age label.
pub fn summary_line(q: &QuestionSummary, age: &str) -> (r: String)
    ensures
        r@ == summary_text(*q, age@),
{
    let mut r = owned("[question: ");
    push_int(&mut r, q.id);
    r.append("] ");
    append_tail(&mut r, q.title.as_str(), age, q.author.as_str(), q.views, q.stars);
    assert(r@ =~= summary_text(*q, age@));
    r
}

/// A list line shows a question, with an age read from the clock.
pub open spec fn shows_summary(line: Seq<char>, q: QuestionSummary) -> bool {
    exists|age: Seq<char>| possible_age(q.created_at@, age) && line == #[trigger] summary_text(q, age)
}

/// The lines printed for a page of questions, one per question, in order.
pub fn question_list_lines(questions: &Vec<QuestionSummary>) -> (r: Vec<String>)
    ensures
        r@.len() == questions@.len(),
        forall|i: int| 0 <= i < r@.len() ==> #[trigger] shows_summary(r@[i]@, questions@[i]),
{
    let mut r: Vec<String> = Vec::new();
    let mut i: usize = 0;
    while i < questions.len()
        invariant
            i <= questions@.len(),
            r@.len() == i,
            forall|k: int| 0 <= k < i ==> #[trigger] shows_summary(r@[k]@, questions@[k]),
        decreases questions@.len() - i,
    {
        let q = &questions[i];
        let age = format_time_ago(q.created_at.as_str());
        let line = summary_line(q, age.as_str());
        let ghost before = r@;
        r.push(line);
        assert(possible_age(questions@[i as int].created_at@, age@) && r@[i as int]@ == summary_text(
            questions@[i as int],
            age@,
        ));
        assert forall|k: int| 0 <= k < i + 1 implies #[trigger] shows_summary(
            r@[k]@,
            questions@[k],
        ) by {
            if k < i {
                assert(r@[k] == before[k]);
            }
        }
        i = i + 1;
    }
    r
}

/// The first line shown for a question, given its age label.
pub fn question_header(q: &Question, age: &str) -> (r: String)
    ensures
        r@ == header_text(*q, age@),
{
    let mut r = if q.solved {
        owned("[SOLVED]")
    } else {
        owned("[OPEN]")
    };
    r.append(" [question: ");
    push_int(&mut r, q.id);
    r.append("] ");
    append_tail(&mut r, q.title.as_str(), age, q.author.as_str(), q.views, q.stars);
    assert(r@ =~= header_text(*q, age@));
    r
}

/// The line introducing an answer, given its age label.
pub fn answer_header(a: &Answer, age: &str) -> (r: String)
    ensures
        r@ == answer_header_text(*a, age@),
{
    let mut r = owned("[answer: ");
    push_int(&mut r, a.id);
    r.append("] at ");
    r.append(age);
    r.append(" by ");
    r.append(a.author.as_str());
    assert(r@ =~= answer_header_text(*a, age@));
    r
}

/// The line announcing the answers: a blank line, `--- <n> Answers ---`, a blank line.
pub open spec fn answers_banner_text(n: nat) -> Seq<char> {
    "\n--- "@ + nat_decimal(n) + " Answers ---\n"@
}

/// Lines `3k+3 .. 3k+6` of a question page show answer `k`: its header (with
/// an age read from the clock), its text, and a separator.
pub open spec fn shows_answer(lines: Seq<String>, answers: Seq<Answer>, k: int) -> bool {
    let a = answers[k];
    &&& exists|age: Seq<char>|
        possible_age(a.created_at@, age) && lines[3 + 3 * k]@ == #[trigger] answer_header_text(
            a,
            age,
        )
    &&& lines[4 + 3 * k]@ == a.content@
    &&& lines[5 + 3 * k]@ == "--------"@
}

/// The first line of a question page shows the question's header, with an
/// age read from the clock.
pub open spec fn shows_header(line: Seq<char>, q: Question) -> bool {
    exists|age: Seq<char>| possible_age(q.created_at@, age) && line == #[trigger] header_text(q, age)
}

/// What `get` prints for a question, line by line: the header, a blank line
/// and the question's text, the answer count, then for each answer its
/// header, its text and a separator.
pub fn question_page_lines(qa: &QuestionWithAnswers) -> (r: Vec<String>)
    ensures
        r@.len() == 3 + 3 * qa.answers@.len(),
        shows_header(r@[0]@, qa.question),
        r@[1]@ == "\n"@ + qa.question.content@,
        r@[2]@ == answers_banner_text(qa.answers@.len()),
        forall|k: int| 0 <= k < qa.answers@.len() ==> #[trigger] shows_answer(r@, qa.answers@, k),
{
    let q = &qa.question;
    let mut r: Vec<String> = Vec::new();
    let age = format_time_ago(q.created_at.as_str());
    r.push(question_header(q, age.as_str()));
    let mut body = owned("\n");
    body.append(q.content.as_str());
    r.push(body);
    let mut banner = owned("\n--- ");
    push_decimal(&mut banner, qa.answers.len() as u128);
    banner.append(" Answers ---\n");
    r.push(banner);
    assert(possible_age(q.created_at@, age@) && r@[0]@ == header_text(*q, age@));
    let mut j: usize = 0;
    while j < qa.answers.len()
        invariant
            j <= qa.answers@.len(),
            r@.len() == 3 + 3 * j,
            shows_header(r@[0]@, qa.question),
            r@[1]@ == "\n"@ + qa.question.content@,
            r@[2]@ == answers_banner_text(qa.answers@.len()),
            forall|k: int| 0 <= k < j ==> #[trigger] shows_answer(r@, qa.answers@, k),
        decreases qa.answers@.len() - j,
    {
        let a = &qa.answers[j];
        let age = format_time_ago(a.created_at.as_str());
        let ghost before = r@;
        r.push(answer_header(a, age.as_str()));
        r.push(a.content.clone());
        r.push(owned("--------"));
        assert(r@[0] == before[0] && r@[1] == before[1] && r@[2] == before[2]);
        assert(possible_age(qa.answers@[j as int].created_at@, age@) && r@[3 + 3 * j]@
            == answer_header_text(qa.answers@[j as int], age@));
        assert(shows_answer(r@, qa.answers@, j as int));
        assert forall|k: int| 0 <= k < j + 1 implies #[trigger] shows_answer(r@, qa.answers@, k) by {
            if k < j {
                assert(shows_answer(before, qa.answers@, k));
                assert(r@[3 + 3 * k] == before[3 + 3 * k]);
                assert(r@[4 + 3 * k] == before[4 + 3 * k]);
                assert(r@[5 + 3 * k] == before[5 + 3 * k]);
            }
        }
        j = j + 1;
    }
    r
}

// ---------------------------------------------------------------------------
// Confirmations
// ---------------------------------------------------------------------------

fn text_int(a: &str, i: i64) -> (r: String)
    ensures
        r@ == a@ + int_decimal(i as int),
{
    let mut r = owned(a);
    push_int(&mut r, i);
    r
}

fn text_text(a: &str, b: &str) -> (r: String)
    ensures
        r@ == a@ + b@,
{
    let mut r = owned(a);
    r.append(b);
    r
}

/// What `create-account` prints: the account name, where the key was saved,
/// and the key.
pub fn account_created_lines(name: &str, config_path: &str, api_key: &str) -> (r: Vec<String>)
    ensures
        r@.len() == 3,
        r@[0]@ == "\u{2713} Account created: "@ + name@,
        r@[1]@ == "\u{2713} API key saved to "@ + config_path@,
        r@[2]@ == "  API Key: "@ + api_key@,
{
    let mut r: Vec<String> = Vec::new();
    r.push(text_text("\u{2713} Account created: ", name));
    r.push(text_text("\u{2713} API key saved to ", config_path));
    r.push(text_text("  API Key: ", api_key));
    r
}

/// What `change-api-key` prints.
pub fn api_key_changed_lines(api_key: &str) -> (r: Vec<String>)
    ensures
        r@.len() == 2,
        r@[0]@ == "\u{2713} API key changed successfully"@,
        r@[1]@ == "  New API Key: "@ + api_key@,
{
    let mut r: Vec<String> = Vec::new();
    r.push(owned("\u{2713} API key changed successfully"));
    r.push(text_text("  New API Key: ", api_key));
    r
}

/// What `ask` prints for the new question.
pub fn question_created_message(id: i64) -> (r: String)
    ensures
        r@ == "\u{2713} Question created: #"@ + int_decimal(id as int),
{
    text_int("\u{2713} Question created: #", id)
}

/// What `answer` prints for the new answer.
pub fn answer_created_message(answer_id: i64, question_id: i64) -> (r: String)
    ensures
        r@ == "\u{2713} Answer created: #"@ + int_decimal(answer_id as int) + " for question #"@
            + int_decimal(question_id as int),
{
    let mut r = text_int("\u{2713} Answer created: #", answer_id);
    r.append(" for question #");
    push_int(&mut r, question_id);
    r
}

/// What `solve` prints.
pub fn solved_message(id: i64, unsolved: bool) -> (r: String)
    ensures
        r@ == "\u{2713} Question #"@ + int_decimal(id as int) + " marked as "@ + if unsolved {
            "unsolved"@
        } else {
            "solved"@
        },
{
    let mut r = text_int("\u{2713} Question #", id);
    r.append(" marked as ");
    if unsolved {
        r.append("unsolved");
    } else {
        r.append("solved");
    }
    r
}

/// What `star` prints.
pub fn starred_message(id: i64) -> (r: String)
    ensures
        r@ == "\u{2713} Starred question #"@ + int_decimal(id as int),
{
    text_int("\u{2713} Starred question #", id)
}

/// What `unstar` prints.
pub fn unstarred_message(id: i64) -> (r: String)
    ensures
        r@ == "\u{2713} Unstarred question #"@ + int_decimal(id as int),
{
    text_int("\u{2713} Unstarred question #", id)
}

/// What `rm-question` prints.
pub fn question_deleted_message(id: i64) -> (r: String)
    ensures
        r@ == "\u{2713} Deleted question #"@ + int_decimal(id as int) + " with all its answers"@,
{
    let mut r = text_int("\u{2713} Deleted question #", id);
    r.append(" with all its answers");
    r
}

/// What `rm-answer` prints.
pub fn answer_deleted_message(question_id: i64, answer_id: i64) -> (r: String)
    ensures
        r@ == "\u{2713} Deleted answer #"@ + int_decimal(answer_id as int) + " from question #"@
            + int_decimal(question_id as int),
{
    let mut r = text_int("\u{2713} Deleted answer #", answer_id);
    r.append(" from question #");
    push_int(&mut r, question_id);
    r
}

/// The two paginated lists.
#[derive(Debug, Clone, PartialEq, Eq)]
pub enum ListKind {
    Unsolved,
    Starred,
}

/// The name of a list in messages and commands.
pub open spec fn list_name(kind: ListKind) -> Seq<char> {
    match kind {
        ListKind::Unsolved => "unsolved"@,
        ListKind::Starred => "starred"@,
    }
}

fn list_word(kind: &ListKind) -> (r: &'static str)
    ensures
        r@ == list_name(*kind),
{
    match kind {
        ListKind::Unsolved => "unsolved",
        ListKind::Starred => "starred",
    }
}

/// What a list command prints when the page is empty.
pub fn empty_list_message(kind: &ListKind) -> (r: String)
    ensures
        r@ == "No "@ + list_name(*kind) + " questions."@,
{
    let mut r = owned("No ");
    r.append(list_word(kind));
    r.append(" questions.");
    r
}

/// The hints printed under a non-empty page: how to show or answer a
/// question, and the command for the next page.
pub fn list_footer(kind: &ListKind, page: i64) -> (r: Vec<String>)
    requires
        page < i64::MAX,
    ensures
        r@.len() == 2,
        r@[0]@ == "  => show: `qa get <id>` | answer: `echo \"your answer\" | qa answer <id>`"@,
        r@[1]@ == "  => next page: `qa "@ + list_name(*kind) + " --page "@ + int_decimal(page + 1)
            + "`"@,
{
    let mut r: Vec<String> = Vec::new();
    r.push(owned("  => show: `qa get <id>` | answer: `echo \"your answer\" | qa answer <id>`"));
    let mut next = owned("  => next page: `qa ");
    next.append(list_word(kind));
    next.append(" --page ");
    push_int(&mut next, page + 1);
    next.append("`");
    r.push(next);
    r
}

} // verus!
