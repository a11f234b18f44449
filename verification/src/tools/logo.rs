//! What the program shows when it starts: its name in large letters, and a
//! copyright notice.

use vstd::prelude::*;
use crate::config::model::{text_or_empty, Config};
use crate::tools::text::{push_signed_decimal, signed_decimal, text_view};

verus! {

/// The year of the first release.
pub const FIRST_YEAR: i32 = 2025;

/// The widest padding, in spaces, that is asked for around large letters.
pub const MAX_PADDING: usize = 0xffff;

/// The years of the copyright notice: the year of the first release alone
/// in that year, and followed by the current year in every other.
pub open spec fn copyright_years(year: int) -> Seq<char> {
    if year == FIRST_YEAR {
        signed_decimal(FIRST_YEAR as int)
    } else {
        signed_decimal(FIRST_YEAR as int) + " - "@ + signed_decimal(year)
    }
}

/// The copyright notice: years, author and version on one line, then the
/// description and where to find the program.
pub open spec fn copyright_text(
    year: int,
    author: Seq<char>,
    version: Seq<char>,
    description: Seq<char>,
    homepage: Seq<char>,
    repository: Seq<char>,
) -> Seq<char> {
    "\n(c) "@ + copyright_years(year) + " - "@ + author + " - Version "@ + version + "\n📆 "@
        + description + "\nVisit: "@ + homepage + "\nGithub: "@ + repository + "\n\n\n"@
}

/// The copyright notice of the package that `cfg` describes, for the current
/// year `year`.
pub fn copyright(cfg: &Config, year: i32) -> (notice: String)
    ensures
        notice@ == copyright_text(
            year as int,
            text_or_empty(cfg.author),
            text_or_empty(cfg.version),
            text_or_empty(cfg.description),
            text_or_empty(cfg.homepage),
            text_or_empty(cfg.repository),
        ),
{
    let (version, author, homepage, description, repository) = cfg.get_config();
    let mut years = String::new();
    push_signed_decimal(&mut years, FIRST_YEAR as i64);
    if year != FIRST_YEAR {
        years.append(" - ");
        push_signed_decimal(&mut years, year as i64);
    }
    let mut notice = String::from_str("\n(c) ");
    notice.append(years.as_str());
    notice.append(" - ");
    notice.append(author.as_str());
    notice.append(" - Version ");
    notice.append(version.as_str());
    notice.append("\n📆 ");
    notice.append(description.as_str());
    notice.append("\nVisit: ");
    notice.append(homepage.as_str());
    notice.append("\nGithub: ");
    notice.append(repository.as_str());
    notice.append("\n\n\n");
    notice
}

/// The view of a text or of the message given in its place.
pub open spec fn art_view(art: Result<String, String>) -> Result<Seq<char>, Seq<char>> {
    match art {
        Ok(text) => Ok(text@),
        Err(message) => Err(message@),
    }
}

/// `input` drawn in large letters of the font `font`, with `gap` spaces
/// between the letters and `leading` and `trailing` spaces around each line;
/// or a message in its place where a character of `input` has no large
/// letter.
pub uninterp spec fn ascii_art(
    input: Seq<char>,
    font: Seq<char>,
    leading: int,
    gap: int,
    trailing: int,
) -> Result<Seq<char>, Seq<char>>;

/// `text_to_ascii_art::to_art`: the drawing of `input` in large letters, or
/// the message that it gives instead. The result depends on the arguments
/// alone. The padding is kept small, since the spaces are allocated.
#[verifier::external_body]
fn to_art(input: &str, font: &str, leading: usize, gap: usize, trailing: usize) -> (art: Result<
    String,
    String,
>)
    requires
        leading <= MAX_PADDING,
        gap <= MAX_PADDING,
        trailing <= MAX_PADDING,
    ensures
        art_view(art) == ascii_art(input@, font@, leading as int, gap as int, trailing as int),
{
    text_to_ascii_art::to_art(input.to_string(), font, leading, gap, trailing)
}

/// What is shown at startup.
#[derive(Clone, Debug)]
pub struct Startup {
    /// The text to print.
    pub text: String,
    /// Why the name could not be drawn in large letters, if it could not.
    pub error: Option<String>,
}

/// The text that is shown for a drawing of the name and a copyright notice:
/// three empty lines, the drawing and the notice; the notice alone where
/// there is no drawing.
pub open spec fn startup_text(art: Result<Seq<char>, Seq<char>>, notice: Seq<char>) -> Seq<char> {
    match art {
        Ok(drawing) => "\n\n\n"@ + drawing + "\n"@ + notice,
        Err(_) => notice,
    }
}

/// The message that stands in place of a drawing, if one does.
pub open spec fn startup_error(art: Result<Seq<char>, Seq<char>>) -> Option<Seq<char>> {
    match art {
        Ok(_) => None,
        Err(message) => Some(message),
    }
}

/// Puts together what is shown at startup from the drawing of the name, or
/// the message given in its place, and the copyright notice.
pub fn startup(art: Result<String, String>, notice: &str) -> (shown: Startup)
    ensures
        shown.text@ == startup_text(art_view(art), notice@),
        text_view(shown.error) == startup_error(art_view(art)),
{
    match art {
        Ok(drawing) => {
            let mut text = String::from_str("\n\n\n");
            text.append(drawing.as_str());
            text.append("\n");
            text.append(notice);
            Startup { text, error: None }
        },
        Err(message) => Startup { text: String::from_str(notice), error: Some(message) },
    }
}

/// What to show at startup for the package `package_name` that `cfg`
/// describes, in the year `year`: the name in large letters of the default
/// font, and the copyright notice.
pub fn show(cfg: &Config, package_name: &str, year: i32) -> (shown: Startup)
    ensures
        ({
            let art = ascii_art(package_name@, ""@, 0, 0, 0);
            let notice = copyright_text(
                year as int,
                text_or_empty(cfg.author),
                text_or_empty(cfg.version),
                text_or_empty(cfg.description),
                text_or_empty(cfg.homepage),
                text_or_empty(cfg.repository),
            );
            &&& shown.text@ == startup_text(art, notice)
            &&& text_view(shown.error) == startup_error(art)
        }),
{
    let art = to_art(package_name, "", 0, 0, 0);
    let notice = copyright(cfg, year);
    startup(art, notice.as_str())
}

} // verus!
