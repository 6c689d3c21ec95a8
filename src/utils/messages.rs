use vstd::prelude::*;

verus! {

/// The texts that the sections show to the user.
pub struct Messages;

impl Messages {
    pub const PROJECT_TIPS: &'static str = "Tips for project information:\n- Project name should be clear and descriptive\n- Version should follow semantic versioning (X.Y.Z)\n- Description should explain what your project does";

    pub const AUTHORS_TIPS: &'static str = "Tips for authors:\n- Use full names when possible\n- Email should be valid and accessible\n- Multiple authors can be added";

    pub const LICENSE_TIPS: &'static str = "Tips for licensing:\n- Choose a license that fits your project's needs\n- Consider compatibility with dependencies\n- Custom licenses should be well documented";

    pub const FEATURES_TIPS: &'static str = "Tips for features:\n- List main functionalities\n- Keep descriptions concise\n- Highlight unique selling points";

    pub const INSTALL_TIPS: &'static str = "Tips for installation:\n- List all prerequisites\n- Include step-by-step instructions\n- Mention any configuration needed";

    pub const CICD_TIPS: &'static str = "Tips for CI/CD:\n- Choose appropriate platform\n- Configure essential checks\n- Define branch strategy";

    pub const SUCCESS_SECTION: &'static str = "Section configured successfully!";

    pub const CONFIRM_DELETE: &'static str = "Are you sure you want to delete this?";

    pub const ERR_INVALID_EMAIL: &'static str = "Invalid email format";

    pub const ERR_INVALID_PROJECT_NAME: &'static str = "Project name cannot be empty";

    pub const ERR_INVALID_VERSION: &'static str = "Invalid version format (use X.Y.Z)";
}

} // verus!
