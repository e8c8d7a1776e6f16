# isucari

The decisions of a marketplace service, verified with Verus, and the web service
around them.

`src/` holds the decisions. A handler (`items`, `category_items`, `transactions`,
`settings`, `initialize`, `reports`) is a value that asks for one operation at a time
(`protocol::Request`), continues with the reply (`protocol::Reply`) and in the end answers
or gives up (`protocol::Step`). `lookup` finds users, categories and settings, `paging`
reads which page of a list is asked for, `datetime` and `text` turn dates and numbers into
what the database and the URL hold. `laws` states what whole runs of the handlers come to:
which page a list shows, that its pages together are the whole list, which columns an answer
leaves out, which failure decides an answer, that a stored setting is read back, that only
the initialization writes, that a transaction is always closed, that each statement has one
placeholder for each of its values.

`app/` is the service itself: it performs the operations with `sqlx`, `actix-web` and
`actix-session`, and runs the handlers.
