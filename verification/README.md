# stryke-k8s

Kubernetes operations for stryke, with the decisions verified by Verus.

`src/` is the library. It does no input or output of its own: an operation is a
session that says what it needs next (a connection, discovery, a call, the time)
and is told what came of it, until it has an answer.

| module | what it holds |
|---|---|
| `text`, `decimal` | texts as sequences of characters, numbers in decimal |
| `json`, `codec` | documents, how they are read and written, replies |
| `selector`, `selector_laws`, `selector_list_laws` | label selectors: parsing, building, matching |
| `names` | the rules for object names and label values |
| `quantity` | resource quantities: their texts and suffixes |
| `resource`, `resource_laws` | from a word for a kind to the resource that is served |
| `kubeconfig` | the contexts that the text of a kubeconfig holds |
| `cluster` | what is said to a cluster and what it says back |
| `plan`, `answer` | what each operation asks for, and what it makes of the answers |
| `session`, `session_laws` | an operation from its arguments to its answer |
| `exports` | the calls by name, on the bytes that a caller passes |
| `command`, `helper`, `helper_laws` | the commands of the command line |
| `error` | the error that an operation answers with |

The proof functions whose names begin with `law_` state what holds of the library as
a whole. What is taken on trust is marked where it stands: the calls into
`serde_json`, `serde_yaml`, `kube` and `std` that the library makes.

`app/` is the program around the library: the command line, the C exports, and the
calls on a cluster. Quantities are multiplied and divided there, in floating point.
`tests/` holds the tests.
