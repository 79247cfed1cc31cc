//! Which chat template a service is configured with.

use vstd::prelude::*;
use vstd::string::*;

verus! {

/// A chat template under a name.
#[derive(Debug)]
pub struct NamedChatTemplate {
    pub name: String,
    pub template: String,
}

/// The chat template of a configuration: one, or several under names.
#[derive(Debug)]
pub enum ChatTemplateVersions {
    Single(String),
    Multiple(Vec<NamedChatTemplate>),
}

/// The tokenizer's configuration, as far as the core reads it.
#[derive(Debug)]
pub struct HubTokenizerConfig {
    pub chat_template: Option<ChatTemplateVersions>,
    pub bos_token: Option<String>,
    pub eos_token: Option<String>,
}

/// The processor's configuration, as far as the core reads it.
#[derive(Debug)]
pub struct HubProcessorConfig {
    pub chat_template: Option<ChatTemplateVersions>,
}

/// The chat template that a service renders with, and the two tokens that
/// the template may refer to.
#[derive(Debug)]
pub struct ChatTemplate {
    pub template: String,
    pub bos_token: Option<String>,
    pub eos_token: Option<String>,
}

/// The name under which a list of templates holds the one to use.
pub open spec fn default_name() -> Seq<char> {
    "default"@
}

/// The first template of the list that goes by the default name.
pub open spec fn default_template(templates: Seq<NamedChatTemplate>) -> Option<Seq<char>>
    decreases templates.len(),
{
    if templates.len() == 0 {
        None
    } else if templates[0].name@ == default_name() {
        Some(templates[0].template@)
    } else {
        default_template(templates.drop_first())
    }
}

/// The template that a configuration's entry stands for: the single one,
/// or of several the one under the default name.
pub open spec fn selected(versions: ChatTemplateVersions) -> Option<Seq<char>> {
    match versions {
        ChatTemplateVersions::Single(template) => Some(template@),
        ChatTemplateVersions::Multiple(templates) => default_template(templates@),
    }
}

/// The template that the two configurations stand for: the tokenizer's
/// entry is preferred to the processor's, and the entry that is taken
/// decides alone.
pub open spec fn resolved(
    tokenizer: Option<ChatTemplateVersions>,
    processor: Option<ChatTemplateVersions>,
) -> Option<Seq<char>> {
    match tokenizer {
        Some(versions) => selected(versions),
        None => match processor {
            Some(versions) => selected(versions),
            None => None,
        },
    }
}

/// The text of an optional string.
pub open spec fn text_of(value: Option<String>) -> Option<Seq<char>> {
    match value {
        Some(text) => Some(text@),
        None => None,
    }
}

/// The template that a list holds under the default name is the template
/// of the first entry with that name, and there is none only if no entry
/// has that name.
pub proof fn law_default_is_first(templates: Seq<NamedChatTemplate>)
    ensures
        match default_template(templates) {
            Some(template) => exists|i: int|
                0 <= i < templates.len() && (#[trigger] templates[i]).name@ == default_name()
                    && templates[i].template@ == template && forall|j: int|
                    0 <= j < i ==> (#[trigger] templates[j]).name@ != default_name(),
            None => forall|i: int|
                0 <= i < templates.len() ==> (#[trigger] templates[i]).name@ != default_name(),
        },
    decreases templates.len(),
{
    if templates.len() > 0 {
        if templates[0].name@ == default_name() {
            assert(templates[0].name@ == default_name() && templates[0].template@
                == default_template(templates)->0);
        } else {
            let rest = templates.drop_first();
            law_default_is_first(rest);
            assert(forall|i: int| 0 <= i < rest.len() ==> rest[i] == templates[i + 1]);
            match default_template(rest) {
                Some(template) => {
                    let i = choose|i: int|
                        0 <= i < rest.len() && (#[trigger] rest[i]).name@ == default_name()
                            && rest[i].template@ == template && forall|j: int|
                            0 <= j < i ==> (#[trigger] rest[j]).name@ != default_name();
                    assert(templates[i + 1] == rest[i]);
                    assert forall|j: int| 0 <= j < i + 1 implies (#[trigger] templates[j]).name@
                        != default_name() by {
                        if j > 0 {
                            assert(rest[j - 1] == templates[j]);
                        }
                    }
                },
                None => {
                    assert forall|i: int| 0 <= i < templates.len() implies (
                    #[trigger] templates[i]).name@ != default_name() by {
                        if i > 0 {
                            assert(rest[i - 1] == templates[i]);
                        }
                    }
                },
            }
        }
    }
}

/// The template of a configuration's entry.
pub fn select_template(versions: ChatTemplateVersions) -> (template: Option<String>)
    ensures
        text_of(template) == selected(versions),
{
    match versions {
        ChatTemplateVersions::Single(template) => Some(template),
        ChatTemplateVersions::Multiple(templates) => {
            let mut templates = templates;
            let wanted = String::from_str("default");
            let ghost all = templates@;
            let mut i: usize = 0;
            assert(all.skip(0) =~= all);
            while i < templates.len()
                invariant
                    templates@ == all,
                    i <= all.len(),
                    wanted@ == default_name(),
                    selected(versions) == default_template(all),
                    default_template(all) == default_template(all.skip(i as int)),
                decreases templates.len() - i,
            {
                proof {
                    assert(all.skip(i as int).drop_first() =~= all.skip(i + 1));
                    assert(all.skip(i as int)[0] == all[i as int]);
                }
                if templates[i].name == wanted {
                    let found = templates.swap_remove(i);
                    assert(found == all[i as int]);
                    assert(default_template(all.skip(i as int)) == Some(found.template@));
                    return Some(found.template);
                }
                i = i + 1;
            }
            None
        },
    }
}

/// The chat template that a service with these two configurations renders
/// with, if any.
pub fn resolve_chat_template(
    tokenizer_config: HubTokenizerConfig,
    processor_config: HubProcessorConfig,
) -> (chat_template: Option<ChatTemplate>)
    ensures
        match chat_template {
            Some(configured) => {
                &&& resolved(tokenizer_config.chat_template, processor_config.chat_template)
                    == Some(configured.template@)
                &&& configured.bos_token == tokenizer_config.bos_token
                &&& configured.eos_token == tokenizer_config.eos_token
            },
            None => resolved(tokenizer_config.chat_template, processor_config.chat_template)
                is None,
        },
{
    let HubTokenizerConfig { chat_template, bos_token, eos_token } = tokenizer_config;
    let versions = match chat_template {
        Some(versions) => Some(versions),
        None => processor_config.chat_template,
    };
    let template = match versions {
        Some(versions) => select_template(versions),
        None => None,
    };
    match template {
        Some(template) => Some(ChatTemplate { template, bos_token, eos_token }),
        None => None,
    }
}

} // verus!
