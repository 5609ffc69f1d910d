//! What the bot tells about itself.

use vstd::prelude::*;

verus! {

pub const PACKAGE_NAME: &'static str = "jinx";

pub const PACKAGE_REPOSITORY: &'static str = "https://github.com/zkxs/jinx";

/// version string displayed on the command line
pub fn clap_version(package_version: &str, git_commit_hash: &str, authors: &str) -> (r: String)
    ensures
        r@ == package_version@ + " commit "@ + git_commit_hash@
            + "\nCopyright 2025 jinx contributors\nLicense: GNU AGPL v3.0 or any later version\nWritten by: "@ + authors@,
{
    package_version.to_owned().concat(" commit ").concat(git_commit_hash).concat(
        "\nCopyright 2025 jinx contributors\nLicense: GNU AGPL v3.0 or any later version\nWritten by: ",
    ).concat(authors)
}

/// String shown via the Discord bot's `/version` command
pub fn discord_bot_version(package_version: &str, git_commit_hash: &str) -> (r: String)
    ensures
        r@ == PACKAGE_NAME@ + " "@ + package_version@ + " commit "@ + git_commit_hash@
            + "\nCopyright 2025 jinx contributors\nLicense: GNU AGPL v3.0 or any later version\n"@
            + PACKAGE_REPOSITORY@,
{
    PACKAGE_NAME.to_owned().concat(" ").concat(package_version).concat(" commit ").concat(git_commit_hash).concat(
        "\nCopyright 2025 jinx contributors\nLicense: GNU AGPL v3.0 or any later version\n",
    ).concat(PACKAGE_REPOSITORY)
}

/// The user agent of HTTP requests
pub fn user_agent(package_version: &str) -> (r: String)
    ensures
        r@ == PACKAGE_NAME@ + "/"@ + package_version@ + " "@ + PACKAGE_REPOSITORY@,
{
    PACKAGE_NAME.to_owned().concat("/").concat(package_version).concat(" ").concat(PACKAGE_REPOSITORY)
}

} // verus!
