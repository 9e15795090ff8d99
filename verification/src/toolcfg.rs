//! The JSON tool-config document: the entry a target stores per tool, and
//! the non-destructive merge that installing tools performs on the
//! document — existing keys the agent's tools do not name are preserved,
//! keys a tool names are overwritten, and the document is created from
//! nothing when absent or unparseable. The merge semantics are those of
//! [`crate::assoc`]; only leaf JSON conversions are trusted.

use vstd::prelude::*;
use vstd::string::*;

use crate::agent::{McpTool, McpToolView};
use crate::assoc::{
    self, entries_view, key_index, lemma_key_index_props, merge_spec, upsert_spec,
};
use crate::jsonio::{
    self, json_doc_entries, json_object_of, json_pretty_of, json_string_array_of,
    json_string_map_of, json_string_of, json_value_entries,
};

verus! {

/// The object value a target's tool mapping stores for one tool: a
/// `"type": "stdio"` discriminator when the target asks for one, then the
/// tool's command, its arguments and its environment.
pub open spec fn tool_entry_spec(t: McpToolView, with_type: bool) -> serde_json::Value {
    json_object_of(
        (if with_type {
            seq![("type"@, json_string_of("stdio"@))]
        } else {
            Seq::<(Seq<char>, serde_json::Value)>::empty()
        }) + seq![
            ("command"@, json_string_of(t.command)),
            ("args"@, json_string_array_of(t.args)),
            ("env"@, json_string_map_of(t.env)),
        ],
    )
}

/// The entry stored for one tool, assembled from the trusted leaf values.
/// The key set, their order and the discriminator decision stand here,
/// verified; only the leaf conversions are trusted.
pub fn tool_entry_value(tool: &McpTool, with_type: bool) -> (r: serde_json::Value)
    ensures
        r == tool_entry_spec(tool@, with_type),
{
    let mut es: Vec<(String, serde_json::Value)> = Vec::new();
    if with_type {
        es.push(("type".to_owned(), jsonio::json_string_value("stdio")));
    }
    es.push(("command".to_owned(), jsonio::json_string_value(tool.command.as_str())));
    es.push(("args".to_owned(), jsonio::json_string_array(&tool.args)));
    es.push(("env".to_owned(), jsonio::json_string_map(&tool.env)));
    proof {
        let tail = seq![
            ("command"@, json_string_of(tool@.command)),
            ("args"@, json_string_array_of(tool@.args)),
            ("env"@, json_string_map_of(tool@.env)),
        ];
        if with_type {
            assert(entries_view(es@) =~= seq![("type"@, json_string_of("stdio"@))] + tail);
        } else {
            assert(entries_view(es@) =~= tail);
            assert(Seq::<(Seq<char>, serde_json::Value)>::empty() + tail =~= tail);
        }
    }
    jsonio::object_from_entries(es)
}

/// The updates an agent's tools contribute: each tool's name bound to its
/// rendered entry, in order.
pub open spec fn tool_updates(tools: Seq<McpToolView>, with_type: bool) -> Seq<
    (Seq<char>, serde_json::Value),
> {
    tools.map_values(|t: McpToolView| (t.name, tool_entry_spec(t, with_type)))
}

/// The top-level entries of the existing document: none when the document
/// is absent or is not a JSON object.
pub open spec fn existing_doc_entries(existing: Option<Seq<char>>) -> Seq<
    (Seq<char>, serde_json::Value),
> {
    match existing {
        Some(t) => match json_doc_entries(t) {
            Some(es) => es,
            None => Seq::empty(),
        },
        None => Seq::empty(),
    }
}

/// The entries of the document's tool mapping: empty when the document has
/// no `mcpServers` key or its value is not an object.
pub open spec fn doc_servers(doc: Seq<(Seq<char>, serde_json::Value)>) -> Seq<
    (Seq<char>, serde_json::Value),
> {
    match key_index(doc, "mcpServers"@) {
        Some(i) => match json_value_entries(doc[i].1) {
            Some(es) => es,
            None => Seq::empty(),
        },
        None => Seq::empty(),
    }
}

/// The text written for a JSON tool-config document: the existing
/// document's top-level entries, with the tool mapping replaced by the
/// merge of its current entries and the agent's tools under
/// [`merge_spec`] — keys no tool names survive with their values, keys a
/// tool names are overwritten with that tool's entry.
pub open spec fn merged_config_text(
    existing: Option<Seq<char>>,
    tools: Seq<McpToolView>,
    with_type: bool,
) -> Seq<char> {
    let doc = existing_doc_entries(existing);
    let servers = merge_spec(doc_servers(doc), tool_updates(tools, with_type));
    let doc2 = match key_index(doc, "mcpServers"@) {
        Some(i) => doc.remove(i),
        None => doc,
    };
    let doc3 = upsert_spec(doc2, "mcpServers"@, json_object_of(servers));
    json_pretty_of(json_object_of(doc3))
}

/// The view of an optional document text.
pub open spec fn opt_text_view(existing: Option<String>) -> Option<Seq<char>> {
    match existing {
        Some(t) => Some(t@),
        None => None,
    }
}

/// The merged tool-config document for the agent's tools.
pub fn merged_tool_config_text(existing: &Option<String>, tools: &Vec<McpTool>, with_type: bool)
    -> (r: String)
    ensures
        r@ == merged_config_text(
            opt_text_view(*existing),
            tools@.map_values(|t: McpTool| t@),
            with_type,
        ),
{
    let ghost tv = tools@.map_values(|t: McpTool| t@);
    let ghost doc0 = existing_doc_entries(opt_text_view(*existing));
    let mut doc: Vec<(String, serde_json::Value)> = match existing {
        Some(t) => match jsonio::parse_object_entries(t.as_str()) {
            Some(es) => es,
            None => Vec::new(),
        },
        None => Vec::new(),
    };
    proof {
        assert(entries_view(Seq::<(String, serde_json::Value)>::empty())
            =~= Seq::<(Seq<char>, serde_json::Value)>::empty());
        assert(entries_view(doc@) == doc0);
    }
    let ghost servers0 = doc_servers(doc0);
    let ghost doc2 = match key_index(doc0, "mcpServers"@) {
        Some(i) => doc0.remove(i),
        None => doc0,
    };
    let mut servers: Vec<(String, serde_json::Value)> = Vec::new();
    match assoc::find_key(&doc, "mcpServers") {
        Some(i) => {
            let ghost before = doc@;
            proof {
                lemma_key_index_props(doc0, "mcpServers"@);
                assert(doc0.len() == doc@.len());
            }
            let entry = doc.remove(i);
            proof {
                assert(doc0[i as int] == (before[i as int].0@, before[i as int].1));
                assert(entries_view(doc@) =~= doc0.remove(i as int));
            }
            match jsonio::object_entries(&entry.1) {
                Some(es) => {
                    servers = es;
                },
                None => {},
            }
            assert(entries_view(servers@) =~= servers0);
        },
        None => {
            assert(entries_view(servers@) =~= servers0);
        },
    }
    assert(entries_view(doc@) == doc2);
    let mut updates: Vec<(String, serde_json::Value)> = Vec::new();
    let mut j: usize = 0;
    proof {
        assert(entries_view(updates@) =~= tool_updates(tv, with_type).subrange(0, 0));
    }
    while j < tools.len()
        invariant
            j <= tools@.len(),
            tv == tools@.map_values(|t: McpTool| t@),
            tv.len() == tools@.len(),
            entries_view(updates@) == tool_updates(tv, with_type).subrange(0, j as int),
        decreases tools@.len() - j,
    {
        let ghost before = entries_view(updates@);
        let entry = tool_entry_value(&tools[j], with_type);
        updates.push((tools[j].name.clone(), entry));
        proof {
            let all = tool_updates(tv, with_type);
            assert(all[j as int] == (tv[j as int].name, tool_entry_spec(tv[j as int], with_type)));
            assert(entries_view(updates@) =~= before.push(all[j as int]));
            assert(all.subrange(0, j as int + 1) =~= all.subrange(0, j as int).push(all[j as int]));
        }
        j = j + 1;
    }
    proof {
        let all = tool_updates(tv, with_type);
        assert(all.subrange(0, tv.len() as int) =~= all);
    }
    assoc::merge_entries(&mut servers, updates);
    let servers_obj = jsonio::object_from_entries(servers);
    assert(servers_obj == json_object_of(merge_spec(servers0, tool_updates(tv, with_type))));
    assoc::upsert(&mut doc, "mcpServers".to_owned(), servers_obj);
    let final_obj = jsonio::object_from_entries(doc);
    jsonio::to_pretty_string(&final_obj)
}

} // verus!
