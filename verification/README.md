# liborchestra

A library to orchestrate the executions of experiments on remote hosts. A campaign holds the
executions of an experiment. A host provides nodes, on which the executions are run. An application
takes jobs, each of which creates an execution, sends it to a node, runs it, and brings the results
back.

The decisions are in `src/`, and proved with Verus. Where work on the network, on files or on
processes alternates with decisions, a module offers a machine: a step takes what came of the last
action, and says what has to be done next. What a step does is stated by a predicate that ends in
`_step`, and the laws of the module are proved over these predicates. The actions are performed in
`app/`, which is ordinary Rust.

| Module | Holds |
| --- | --- |
| `text` | texts and paths: splitting, joining, replacing, numbers |
| `commons` | outputs, environments, tables, contexts |
| `primitives` | droppers, expirable values, values that come back when dropped |
| `stateful` | machines whose states are types |
| `misc` | retries, versions, roots of repositories, combinations of parameters |
| `git` | git commands and what they give |
| `ssh` | connections, executions, interactive commands, transfers of files |
| `hosts` | allocations of nodes; `hosts::cluster` for nodes with numbered slots |
| `repository` | campaigns and executions; `repository::service` for a worker with futures |
| `application` | the application and its jobs |
| `scheduler` | processes that provide parameters |
| `asynclets` | files that are listed, packed, hashed and moved |
| `run` | a script on a remote host |

Floating point numbers are held by their bits, dates by seconds and nanoseconds, paths by their
texts, and connections by numbers.
