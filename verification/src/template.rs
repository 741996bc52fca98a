//! The canonical MPL-2.0 license header, and the fixed texts of the
//! diagnostic that is emitted when a unit's header does not match it.

use vstd::prelude::*;

verus! {

/// The canonical license header, as a sequence of characters: three
/// comment lines separated by newlines, with no surrounding whitespace
/// (headers are trimmed before comparison, so the template carries none).
pub open spec fn template() -> Seq<char> {
    "// This Source Code Form is subject to the terms of the Mozilla Public\n// License, v. 2.0. If a copy of the MPL was not distributed with this\n// file, You can obtain one at http://mozilla.org/MPL/2.0/."@
}

/// The primary message of the diagnostic for a unit whose header is missing.
pub open spec fn missing_message() -> Seq<char> {
    "Missing MPL license header in source file."@
}

/// The help text of the diagnostic: an introductory line followed by the
/// canonical template, set off by blank lines.
pub open spec fn help_text() -> Seq<char> {
    "The license should look like this:\n\n// This Source Code Form is subject to the terms of the Mozilla Public\n// License, v. 2.0. If a copy of the MPL was not distributed with this\n// file, You can obtain one at http://mozilla.org/MPL/2.0/.\n"@
}

/// The canonical license header that checked units are compared against.
pub fn canonical_template() -> (t: &'static str)
    ensures
        t@ == template(),
{
    "// This Source Code Form is subject to the terms of the Mozilla Public\n// License, v. 2.0. If a copy of the MPL was not distributed with this\n// file, You can obtain one at http://mozilla.org/MPL/2.0/."
}

/// The primary message used for every missing-header diagnostic.
pub fn missing_message_text() -> (m: &'static str)
    ensures
        m@ == missing_message(),
{
    "Missing MPL license header in source file."
}

/// The remediation hint used for every missing-header diagnostic.
pub fn help_message_text() -> (h: &'static str)
    ensures
        h@ == help_text(),
{
    "The license should look like this:\n\n// This Source Code Form is subject to the terms of the Mozilla Public\n// License, v. 2.0. If a copy of the MPL was not distributed with this\n// file, You can obtain one at http://mozilla.org/MPL/2.0/.\n"
}

/// The help text carries the full canonical template: after its two
/// introductory lines, the next 201 characters are the template itself.
pub proof fn lemma_help_contains_template()
    ensures
        help_text().subrange(36, 237) == template(),
{
    reveal_strlit(
        "The license should look like this:\n\n// This Source Code Form is subject to the terms of the Mozilla Public\n// License, v. 2.0. If a copy of the MPL was not distributed with this\n// file, You can obtain one at http://mozilla.org/MPL/2.0/.\n",
    );
    reveal_strlit(
        "// This Source Code Form is subject to the terms of the Mozilla Public\n// License, v. 2.0. If a copy of the MPL was not distributed with this\n// file, You can obtain one at http://mozilla.org/MPL/2.0/.",
    );
    assert(help_text().subrange(36, 237) =~= template());
}

/// The template is 201 characters long; its length drives the tolerance
/// of the similarity judgement.
pub proof fn lemma_template_len()
    ensures
        template().len() == 201,
{
    reveal_strlit(
        "// This Source Code Form is subject to the terms of the Mozilla Public\n// License, v. 2.0. If a copy of the MPL was not distributed with this\n// file, You can obtain one at http://mozilla.org/MPL/2.0/.",
    );
}

} // verus!
