# controller

Query planning for a telemetry pipeline that answers from sketches, written and
proved in [Verus](https://github.com/verus-lang/verus).

A query in PromQL or SQL goes through these steps:

| Step | Modules |
|------|---------|
| Parsing to a relational tree and a flat summary | `query_parser`, `language_logical_plan` |
| Intents: which statistic, of which columns, how accurate | `intent_algebra` |
| Rewriting until no rule fires | `optimizer`, `algebra` |
| Binding intents to sketch families and parameters | `sketch_algebra` |
| Placing operators on agent, backend, precompute engine and database | `physical`, `planner`, `stage_split` |
| Writing configuration, keeping workloads and samples, planning again | `emit`, `config`, `store`, `runtime_samples`, `replan`, `deployment_model` |

Every function states what it returns over mathematical views of its arguments.
Public proof functions named `law_...` state what holds across functions: that
the optimizer stops at a fixed point and reads the sources that the query read,
that plans exchange wherever data crosses between stages, that the allocator
keeps within budgets, that what is stored is what is read.

`app/` holds what touches files, the environment, clocks and connections.
