//! Configuration of the collector that merges sketches.
use vstd::prelude::*;
use vstd::string::*;

use crate::emit::document;
use crate::emit::document::{
    list_of_texts, push_field, table_of, text_doc, to_yaml, Doc, DocView, Field, FieldView,
};
use crate::text;
use crate::types::{BackendCollectorConfig, BackendSubPlan, SketchType};

verus! {

/// The name of the processor that merges sketches of a family.
pub open spec fn merge_key(family: SketchType) -> Seq<char> {
    family.label() + "_merge"@
}

/// The names of the processors, in the order in which they run.
pub open spec fn pipeline(family: SketchType, has_dedup: bool) -> Seq<Seq<char>> {
    if has_dedup {
        seq!["dedup"@, merge_key(family)]
    } else {
        seq![merge_key(family)]
    }
}

/// A key and what stands under it.
pub open spec fn field(key: Seq<char>, value: DocView) -> FieldView {
    FieldView { key, value }
}

/// A table with one key.
pub open spec fn table(key: Seq<char>, value: DocView) -> DocView {
    DocView::Table(seq![field(key, value)])
}

/// The settings of the processors, by name.
pub open spec fn processors(
    family: SketchType,
    group_by: Seq<Seq<char>>,
    has_dedup: bool,
) -> Seq<FieldView> {
    let merge = field(
        merge_key(family),
        DocView::Table(
            seq![
                field("group_by"@, DocView::List(document::text_docs(group_by))),
                field("mode"@, DocView::Text("merge"@)),
            ],
        ),
    );
    if has_dedup {
        seq![merge, field("dedup"@, table("mode"@, DocView::Text("dedup"@)))]
    } else {
        seq![merge]
    }
}

/// The collector configuration.
pub open spec fn backend_doc(
    family: SketchType,
    group_by: Seq<Seq<char>>,
    has_dedup: bool,
    opamp_endpoint: Seq<char>,
) -> DocView {
    DocView::Table(
        seq![
            field(
                "extensions"@,
                table(
                    "opamp"@,
                    table(
                        "server"@,
                        table("ws"@, table("endpoint"@, DocView::Text(opamp_endpoint))),
                    ),
                ),
            ),
            field("processors"@, DocView::Table(processors(family, group_by, has_dedup))),
            field(
                "service"@,
                DocView::Table(
                    seq![
                        field("extensions"@, DocView::List(document::text_docs(seq!["opamp"@]))),
                        field(
                            "pipelines"@,
                            table(
                                "metrics"@,
                                table(
                                    "processors"@,
                                    DocView::List(
                                        document::text_docs(pipeline(family, has_dedup)),
                                    ),
                                ),
                            ),
                        ),
                    ],
                ),
            ),
        ],
    )
}

fn merge_name(family: SketchType) -> (r: String)
    ensures
        r@ == merge_key(family),
{
    let mut out = family.name().to_owned();
    out.append("_merge");
    out
}

fn processors_doc(cfg: &BackendCollectorConfig, has_dedup: bool) -> (r: Doc)
    ensures
        r@ == DocView::Table(
            processors(cfg.merge_sketch_type, text::texts(cfg.group_by@), has_dedup),
        ),
{
    let mut settings: Vec<Field> = Vec::new();
    assert(document::fields_view(settings@) =~= Seq::<FieldView>::empty());
    push_field(&mut settings, "group_by", list_of_texts(&cfg.group_by));
    push_field(&mut settings, "mode", text_doc("merge"));
    let mut fields: Vec<Field> = Vec::new();
    assert(document::fields_view(fields@) =~= Seq::<FieldView>::empty());
    let ghost inner = document::fields_view(settings@);
    assert(inner =~= seq![
        field("group_by"@, DocView::List(document::text_docs(text::texts(cfg.group_by@)))),
        field("mode"@, DocView::Text("merge"@)),
    ]);
    push_field(
        &mut fields,
        merge_name(cfg.merge_sketch_type).as_str(),
        Doc::Table(settings),
    );
    if has_dedup {
        push_field(&mut fields, "dedup", table_of("mode", text_doc("dedup")));
    }
    assert(document::fields_view(fields@) =~= processors(
        cfg.merge_sketch_type,
        text::texts(cfg.group_by@),
        has_dedup,
    ));
    Doc::Table(fields)
}

fn service_doc(cfg: &BackendCollectorConfig, has_dedup: bool) -> (r: Doc)
    ensures
        r@ == DocView::Table(
            seq![
                field("extensions"@, DocView::List(document::text_docs(seq!["opamp"@]))),
                field(
                    "pipelines"@,
                    table(
                        "metrics"@,
                        table(
                            "processors"@,
                            DocView::List(
                                document::text_docs(pipeline(cfg.merge_sketch_type, has_dedup)),
                            ),
                        ),
                    ),
                ),
            ],
        ),
{
    let mut extensions: Vec<String> = Vec::new();
    extensions.push("opamp".to_owned());
    assert(text::texts(extensions@) =~= seq!["opamp"@]);
    let mut names: Vec<String> = Vec::new();
    if has_dedup {
        names.push("dedup".to_owned());
    }
    names.push(merge_name(cfg.merge_sketch_type));
    assert(text::texts(names@) =~= pipeline(cfg.merge_sketch_type, has_dedup));
    let mut fields: Vec<Field> = Vec::new();
    assert(document::fields_view(fields@) =~= Seq::<FieldView>::empty());
    push_field(&mut fields, "extensions", list_of_texts(&extensions));
    push_field(
        &mut fields,
        "pipelines",
        table_of("metrics", table_of("processors", list_of_texts(&names))),
    );
    assert(document::fields_view(fields@) =~= seq![
        field("extensions"@, DocView::List(document::text_docs(seq!["opamp"@]))),
        field(
            "pipelines"@,
            table(
                "metrics"@,
                table(
                    "processors"@,
                    DocView::List(
                        document::text_docs(pipeline(cfg.merge_sketch_type, has_dedup)),
                    ),
                ),
            ),
        ),
    ]);
    Doc::Table(fields)
}

/// The collector configuration as a document.
pub fn backend_document(
    cfg: &BackendCollectorConfig,
    has_dedup: bool,
    opamp_endpoint: &str,
) -> (r: Doc)
    ensures
        r@ == backend_doc(
            cfg.merge_sketch_type,
            text::texts(cfg.group_by@),
            has_dedup,
            opamp_endpoint@,
        ),
{
    let mut fields: Vec<Field> = Vec::new();
    assert(document::fields_view(fields@) =~= Seq::<FieldView>::empty());
    push_field(
        &mut fields,
        "extensions",
        table_of(
            "opamp",
            table_of("server", table_of("ws", table_of("endpoint", text_doc(opamp_endpoint)))),
        ),
    );
    push_field(&mut fields, "processors", processors_doc(cfg, has_dedup));
    push_field(&mut fields, "service", service_doc(cfg, has_dedup));
    let ghost want = backend_doc(
        cfg.merge_sketch_type,
        text::texts(cfg.group_by@),
        has_dedup,
        opamp_endpoint@,
    );
    assert(document::fields_view(fields@) =~= want->Table_0);
    Doc::Table(fields)
}

/// Whether a result is the YAML of a document.
pub open spec fn writes(r: Result<String, String>, d: DocView) -> bool {
    match r {
        Ok(s) => document::yaml_text(d) == Some(s@),
        Err(m) => document::yaml_text(d) is None && m@ == "serialize backend config"@,
    }
}

/// The collector configuration as YAML, without a stage plan.
pub fn generate_backend_config(cfg: &BackendCollectorConfig, opamp_endpoint: &str) -> (r: Result<
    String,
    String,
>)
    ensures
        writes(
            r,
            backend_doc(
                cfg.merge_sketch_type,
                text::texts(cfg.group_by@),
                false,
                opamp_endpoint@,
            ),
        ),
{
    generate_backend_config_staged(cfg, None, opamp_endpoint)
}

/// Whether a stage plan removes duplicates.
pub open spec fn dedups(staged: Option<&BackendSubPlan>) -> bool {
    match staged {
        Some(s) => s.has_dedup,
        None => false,
    }
}

/// The collector configuration as YAML; duplicates are removed before sketches
/// are merged where the stage plan says so.
pub fn generate_backend_config_staged(
    cfg: &BackendCollectorConfig,
    staged: Option<&BackendSubPlan>,
    opamp_endpoint: &str,
) -> (r: Result<String, String>)
    ensures
        writes(
            r,
            backend_doc(
                cfg.merge_sketch_type,
                text::texts(cfg.group_by@),
                dedups(staged),
                opamp_endpoint@,
            ),
        ),
{
    let has_dedup = match staged {
        Some(s) => s.has_dedup,
        None => false,
    };
    let doc = backend_document(cfg, has_dedup, opamp_endpoint);
    match to_yaml(&doc) {
        Some(s) => Ok(s),
        None => Err("serialize backend config".to_owned()),
    }
}

/// Sketches are merged last, and duplicates are removed before that exactly
/// where this is asked for.
pub proof fn law_merge_runs_last(family: SketchType, has_dedup: bool)
    ensures
        pipeline(family, has_dedup).last() == merge_key(family),
        pipeline(family, has_dedup).drop_last().contains("dedup"@) <==> has_dedup,
        pipeline(family, has_dedup).len() == processors(family, Seq::empty(), has_dedup).len(),
{
    if has_dedup {
        assert(pipeline(family, has_dedup).drop_last()[0] == "dedup"@);
    }
}

/// What stands under a key of a table.
pub open spec fn under(d: DocView, key: Seq<char>) -> Option<DocView> {
    match d {
        DocView::Table(fs) => first_under(fs, key),
        _ => None,
    }
}

/// What stands under a key that stands first among fields.
pub open spec fn first_under(fs: Seq<FieldView>, key: Seq<char>) -> Option<DocView>
    decreases fs.len(),
{
    if fs.len() == 0 {
        None
    } else if fs[0].key == key {
        Some(fs[0].value)
    } else {
        first_under(fs.drop_first(), key)
    }
}

/// What stands under keys, each within what stands under the one before.
pub open spec fn at_path(d: DocView, path: Seq<Seq<char>>) -> Option<DocView>
    decreases path.len(),
{
    if path.len() == 0 {
        Some(d)
    } else {
        match at_path(d, path.drop_last()) {
            Some(x) => under(x, path.last()),
            None => None,
        }
    }
}

proof fn lemma_keys(family: SketchType)
    ensures
        "extensions"@ != "processors"@,
        "extensions"@ != "service"@,
        "processors"@ != "service"@,
        "extensions"@ != "pipelines"@,
        "group_by"@ != "mode"@,
        merge_key(family) != "dedup"@,
{
    reveal_strlit("extensions");
    reveal_strlit("processors");
    reveal_strlit("service");
    reveal_strlit("pipelines");
    reveal_strlit("group_by");
    reveal_strlit("mode");
    reveal_strlit("dedup");
    reveal_strlit("_merge");
    assert("extensions"@[0] == 'e' && "processors"@[0] == 'p' && "service"@[0] == 's'
        && "pipelines"@[0] == 'p' && "group_by"@[0] == 'g' && "mode"@[0] == 'm');
    let k = merge_key(family);
    assert(k[k.len() - 1] == "_merge"@[5]);
    assert("_merge"@[5] == 'e' && "dedup"@[4] == 'p' && "dedup"@.len() == 5);
}

/// In the configuration the agent connection names the endpoint that is given;
/// the merging processor groups by the labels that are given, in order; the
/// pipeline runs the merge last, after the removal of duplicates where this is
/// asked for; and each processor that runs has settings.
pub proof fn law_configuration_says_what_is_asked(
    family: SketchType,
    group_by: Seq<Seq<char>>,
    has_dedup: bool,
    endpoint: Seq<char>,
)
    ensures
        ({
            let d = backend_doc(family, group_by, has_dedup, endpoint);
            let merge = family.label() + "_merge"@;
            let names = seq!["service"@, "pipelines"@, "metrics"@, "processors"@];
            let host = seq!["extensions"@, "opamp"@, "server"@, "ws"@, "endpoint"@];
            &&& at_path(d, host) == Some(DocView::Text(endpoint))
            &&& match at_path(d, seq!["processors"@, merge, "group_by"@]) {
                Some(DocView::List(labels)) => {
                    &&& labels.len() == group_by.len()
                    &&& forall|i: int|
                        0 <= i < labels.len() ==> #[trigger] labels[i] == DocView::Text(group_by[i])
                },
                _ => false,
            }
            &&& at_path(d, seq!["processors"@, merge, "mode"@]) == Some(DocView::Text("merge"@))
            &&& at_path(d, seq!["processors"@, "dedup"@]) is Some == has_dedup
            &&& at_path(d, names) == Some(
                DocView::List(
                    if has_dedup {
                        seq![DocView::Text("dedup"@), DocView::Text(merge)]
                    } else {
                        seq![DocView::Text(merge)]
                    },
                ),
            )
        }),
{
    lemma_keys(family);
    reveal_with_fuel(at_path, 6);
    reveal_with_fuel(first_under, 4);
    let d = backend_doc(family, group_by, has_dedup, endpoint);
    let merge = family.label() + "_merge"@;
    let none = Seq::<Seq<char>>::empty();
    let host = seq!["extensions"@, "opamp"@, "server"@, "ws"@, "endpoint"@];
    assert(host.drop_last() =~= seq!["extensions"@, "opamp"@, "server"@, "ws"@]);
    assert(host.drop_last().drop_last() =~= seq!["extensions"@, "opamp"@, "server"@]);
    assert(seq!["extensions"@, "opamp"@, "server"@].drop_last() =~= seq!["extensions"@, "opamp"@]);
    assert(seq!["extensions"@, "opamp"@].drop_last() =~= seq!["extensions"@]);
    assert(seq!["extensions"@].drop_last() =~= none);
    assert(seq!["processors"@].drop_last() =~= none);
    assert(seq!["service"@].drop_last() =~= none);
    assert(under(d, "extensions"@) is Some);
    assert(at_path(d, seq!["extensions"@]) == under(d, "extensions"@));
    let settings = DocView::Table(processors(family, group_by, has_dedup));
    let fs = d->Table_0;
    assert(fs.drop_first()[0].key == "processors"@);
    assert(fs.drop_first().drop_first()[0].key == "service"@);
    assert(under(d, "processors"@) == Some(settings));
    assert(at_path(d, seq!["processors"@]) == Some(settings));
    let own = seq!["processors"@, merge];
    assert(own.drop_last() =~= seq!["processors"@]);
    let inner = processors(family, group_by, has_dedup)[0].value;
    assert(at_path(d, own) == Some(inner));
    assert(seq!["processors"@, merge, "group_by"@].drop_last() =~= own);
    assert(seq!["processors"@, merge, "mode"@].drop_last() =~= own);
    assert(inner->Table_0.drop_first()[0].key == "mode"@);
    let labels = document::text_docs(group_by);
    assert(at_path(d, seq!["processors"@, merge, "group_by"@]) == Some(DocView::List(labels)));
    let dup = seq!["processors"@, "dedup"@];
    assert(dup.drop_last() =~= seq!["processors"@]);
    let ps = processors(family, group_by, has_dedup);
    if has_dedup {
        assert(ps.drop_first()[0].key == "dedup"@);
    } else {
        assert(ps.drop_first().len() == 0);
    }
    let names = seq!["service"@, "pipelines"@, "metrics"@, "processors"@];
    assert(names.drop_last() =~= seq!["service"@, "pipelines"@, "metrics"@]);
    assert(seq!["service"@, "pipelines"@, "metrics"@].drop_last() =~= seq![
        "service"@,
        "pipelines"@,
    ]);
    assert(seq!["service"@, "pipelines"@].drop_last() =~= seq!["service"@]);
    let service = fs[2].value;
    assert(under(d, "service"@) == Some(service));
    assert(at_path(d, seq!["service"@]) == Some(service));
    assert(service->Table_0.drop_first()[0].key == "pipelines"@);
    let run = document::text_docs(pipeline(family, has_dedup));
    assert(at_path(d, names) == Some(DocView::List(run)));
    assert(run =~= if has_dedup {
        seq![DocView::Text("dedup"@), DocView::Text(merge)]
    } else {
        seq![DocView::Text(merge)]
    });
}

} // verus!
